use clearing_house::error::ErrorCode;
use clearing_house::oracle::{get_valid_oracle_price, OracleReading};
use clearing_house::order::Order;

#[test]
fn valid_reading_gives_its_price() {
    let plain = Order::default();
    let relative = Order { oracle_price_offset: -7, ..Order::default() };
    let reading = Some(OracleReading { price: 1_234, is_valid: true });
    assert_eq!(get_valid_oracle_price(reading, &plain), Ok(Some(1_234)));
    assert_eq!(get_valid_oracle_price(reading, &relative), Ok(Some(1_234)));
}

#[test]
fn invalid_reading_is_dropped_unless_the_order_needs_it() {
    let plain = Order::default();
    let relative = Order { oracle_price_offset: 7, ..Order::default() };
    let reading = Some(OracleReading { price: 1_234, is_valid: false });
    assert_eq!(get_valid_oracle_price(reading, &plain), Ok(None));
    assert_eq!(get_valid_oracle_price(reading, &relative), Err(ErrorCode::InvalidOracle));
}

#[test]
fn missing_reading_is_tolerated_unless_the_order_needs_it() {
    let plain = Order::default();
    let relative = Order { oracle_price_offset: 7, ..Order::default() };
    assert_eq!(get_valid_oracle_price(None, &plain), Ok(None));
    assert_eq!(get_valid_oracle_price(None, &relative), Err(ErrorCode::OracleNotFound));
}
