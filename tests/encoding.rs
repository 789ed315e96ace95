use unity_native::metadata::contains_nul;
use unity_native::{MarkerDataType, MarkerDataUnit, MarkerMetaData, MarkerMetaDescriptor};

#[test]
fn numeric_encodings_have_natural_width() {
    assert_eq!(
        MarkerMetaData::Int32(-1).to_c_compatible_bytes(),
        vec![0xFF, 0xFF, 0xFF, 0xFF]
    );
    assert_eq!(
        MarkerMetaData::Uint32(0x01020304).to_c_compatible_bytes(),
        vec![4, 3, 2, 1]
    );
    assert_eq!(
        MarkerMetaData::Int64(-2).to_c_compatible_bytes(),
        (-2i64).to_le_bytes().to_vec()
    );
    assert_eq!(
        MarkerMetaData::Uint64(1).to_c_compatible_bytes(),
        vec![1, 0, 0, 0, 0, 0, 0, 0]
    );
    assert_eq!(
        MarkerMetaData::Float(1.5f32.to_bits()).to_c_compatible_bytes(),
        1.5f32.to_le_bytes().to_vec()
    );
    assert_eq!(
        MarkerMetaData::Double(2.25f64.to_bits()).to_c_compatible_bytes(),
        2.25f64.to_le_bytes().to_vec()
    );
}

#[test]
fn text_and_blob_encodings() {
    assert_eq!(
        MarkerMetaData::String("abc").to_c_compatible_bytes(),
        b"abc\0".to_vec()
    );
    assert_eq!(MarkerMetaData::String("").to_c_compatible_bytes(), vec![0]);
    assert_eq!(
        MarkerMetaData::String("é").to_c_compatible_bytes(),
        vec![0xC3, 0xA9, 0]
    );
    let blob = [9u8, 0, 7];
    assert_eq!(
        MarkerMetaData::Bytes(&blob).to_c_compatible_bytes(),
        vec![9, 0, 7]
    );
    assert_eq!(MarkerMetaData::Bytes(&[]).to_c_compatible_bytes(), Vec::<u8>::new());
}

#[test]
fn values_are_tagged_with_their_kind() {
    assert_eq!(MarkerMetaData::Int32(0).data_type(), MarkerDataType::Int32);
    assert_eq!(MarkerMetaData::Uint32(0).data_type(), MarkerDataType::Uint32);
    assert_eq!(MarkerMetaData::Int64(0).data_type(), MarkerDataType::Int64);
    assert_eq!(MarkerMetaData::Uint64(0).data_type(), MarkerDataType::Uint64);
    assert_eq!(MarkerMetaData::Float(0).data_type(), MarkerDataType::Float);
    assert_eq!(MarkerMetaData::Double(0).data_type(), MarkerDataType::Double);
    assert_eq!(MarkerMetaData::String("").data_type(), MarkerDataType::String);
    assert_eq!(MarkerMetaData::Bytes(&[]).data_type(), MarkerDataType::Blob8);
}

#[test]
fn data_type_tags() {
    assert_eq!(MarkerDataType::InstanceId.tag(), 1);
    assert_eq!(MarkerDataType::Int32.tag(), 2);
    assert_eq!(MarkerDataType::Uint32.tag(), 3);
    assert_eq!(MarkerDataType::Int64.tag(), 4);
    assert_eq!(MarkerDataType::Uint64.tag(), 5);
    assert_eq!(MarkerDataType::Float.tag(), 6);
    assert_eq!(MarkerDataType::Double.tag(), 7);
    assert_eq!(MarkerDataType::String.tag(), 8);
    assert_eq!(MarkerDataType::String16.tag(), 9);
    assert_eq!(MarkerDataType::Blob8.tag(), 11);
    assert_eq!(MarkerDataType::GfxResourceId.tag(), 12);
}

#[test]
fn data_unit_codes() {
    assert_eq!(MarkerDataUnit::Undefined.code(), 0);
    assert_eq!(MarkerDataUnit::Nanoseconds.code(), 1);
    assert_eq!(MarkerDataUnit::Bytes.code(), 2);
    assert_eq!(MarkerDataUnit::Count.code(), 3);
    assert_eq!(MarkerDataUnit::Percent.code(), 4);
    assert_eq!(MarkerDataUnit::FrequencyHz.code(), 5);
}

#[test]
fn descriptor_parts() {
    let d = MarkerMetaDescriptor::new("time", MarkerDataType::Uint64, MarkerDataUnit::Nanoseconds);
    assert_eq!(d.name(), "time");
    assert_eq!(d.name_c(), b"time\0".to_vec());
    assert_eq!(d.datatype(), MarkerDataType::Uint64);
    assert_eq!(d.unit(), MarkerDataUnit::Nanoseconds);
}

#[test]
fn nul_detection() {
    assert!(!contains_nul("plain"));
    assert!(contains_nul("a\0"));
    assert!(contains_nul("\0"));
    assert!(!contains_nul(""));
}
