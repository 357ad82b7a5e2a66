use unipager::raspi::cpuinfo::{is_sun8i, revision};
use unipager::raspi::model::Model;

const PI3: &str = "processor\t: 0\nmodel name\t: ARMv7 Processor rev 4 (v7l)\nBogoMIPS\t: 38.40\n\nHardware\t: BCM2835\nRevision\t: a02082\nSerial\t\t: 00000000deadbeef\nModel\t\t: Raspberry Pi 3 Model B Rev 1.2\n";

const ORANGE: &str = "processor\t: 0\nHardware\t: Allwinner sun8i Family\nRevision\t: 0000\nSerial\t\t: 02c00081aa\n";

#[test]
fn revision_of_a_raspberry_pi() {
    assert_eq!(revision(PI3.as_bytes()), 0xA02082);
    assert!(!is_sun8i(PI3.as_bytes()));
    assert_eq!(Model::from_cpuinfo(PI3.as_bytes()), Model::V3B);
}

#[test]
fn hardware_of_an_orange_pi() {
    assert_eq!(revision(ORANGE.as_bytes()), 0);
    assert!(is_sun8i(ORANGE.as_bytes()));
    assert_eq!(Model::from_cpuinfo(ORANGE.as_bytes()), Model::OrangePi);
    assert!(is_sun8i(b"Hardware : sun8i"));
    assert!(is_sun8i(b"Hardware:sun8i:more"));
    assert!(is_sun8i(b"x\nHardware\t:\t sun8i \r\n"));
    assert!(!is_sun8i(b"Hardware : sun8i Family"));
    assert!(!is_sun8i(b"Hardware : Sun8i"));
    assert!(!is_sun8i(b"Hardware"));
    assert!(!is_sun8i(b" Hardware : sun8i"));
    assert!(!is_sun8i(b""));
}

#[test]
fn revision_is_read_from_the_first_line_that_names_it() {
    assert_eq!(revision(b"Revision : 2\nRevision : 3"), 2);
    assert_eq!(revision(b"Revision\nRevision : 3"), 0);
    assert_eq!(revision(b"revision : 3\nRevision: 000e"), 0xE);
    assert_eq!(revision(b"Revisions of all :  C03130  : x"), 0xC03130);
    assert_eq!(revision(b"\n\nRevision:a\n"), 0xA);
    assert_eq!(revision(b"No such line\n"), 0);
    assert_eq!(revision(b""), 0);
}

#[test]
fn revision_numbers() {
    assert_eq!(revision(b"Revision : +1F"), 0x1F);
    assert_eq!(revision(b"Revision : ffffffff"), 0xFFFF_FFFF);
    assert_eq!(revision(b"Revision : 0000000000ffffffff"), 0xFFFF_FFFF);
    assert_eq!(revision(b"Revision : 100000000"), 0);
    assert_eq!(revision(b"Revision : ffffffffffffffffffffffff"), 0);
    assert_eq!(revision(b"Revision : "), 0);
    assert_eq!(revision(b"Revision : +"), 0);
    assert_eq!(revision(b"Revision : -1"), 0);
    assert_eq!(revision(b"Revision : ++1"), 0);
    assert_eq!(revision(b"Revision : 0x10"), 0);
    assert_eq!(revision(b"Revision : 1 0"), 0);
    assert_eq!(revision(b"Revision : 12g"), 0);
    assert_eq!(revision(b"Revision :\t\x0b\x0c 7 \r"), 7);
}

#[test]
fn model_from_the_description() {
    assert_eq!(Model::from_cpuinfo(b"Revision : 0002"), Model::V1B { rev: 1 });
    assert_eq!(Model::from_cpuinfo(b"Revision : 1000c03111"), Model::Unknown);
    assert_eq!(Model::from_cpuinfo(b"Revision : 10c03111"), Model::V4B);
    assert_eq!(Model::from_cpuinfo(b"Hardware : sun8i\nRevision : 900092"), Model::Zero);
    assert_eq!(Model::from_cpuinfo(b"nothing"), Model::Unknown);
}
