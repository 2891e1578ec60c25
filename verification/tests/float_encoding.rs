//! Tests of the float-format and byte-order pair.

use spss_sav::spss::sav::byte_order::ByteOrder;
use spss_sav::spss::sav::float_encoding::FloatEncoding;
use spss_sav::spss::sav::float_format::FloatFormat;

fn ibm(byte_order: ByteOrder) -> FloatEncoding {
    FloatEncoding::new(FloatFormat::IbmHfp, byte_order)
}

#[test]
fn accessors_return_the_pair() {
    let encoding = ibm(ByteOrder::BigEndian);
    assert_eq!(encoding.format(), FloatFormat::IbmHfp);
    assert_eq!(encoding.byte_order(), ByteOrder::BigEndian);
}
