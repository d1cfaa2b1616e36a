use tinyaes::Padding;
use tinyaes::PaddingError;
use tinyaes::PaddingTypes;

#[test]
fn new() {
    let padding = Padding::new(PaddingTypes::PKCS7);

    assert_eq!(padding.padding_type(), PaddingTypes::PKCS7);
}

#[test]
fn set_padding_type() {
    let mut padding = Padding::new(PaddingTypes::X923);

    assert_eq!(padding.padding_type(), PaddingTypes::X923);
    assert_eq!(padding.padding_type(), PaddingTypes::X923);

    padding.set_padding_type(PaddingTypes::PKCS7);

    assert_eq!(padding.padding_type(), PaddingTypes::PKCS7);
    assert_eq!(padding.padding_type(), PaddingTypes::PKCS7);
}

#[test]
fn pkcs7_padding() {
    //! Tests the PKCS#7 padding.

    let padding: Padding = Padding::new(PaddingTypes::PKCS7);

    let input1: [u8; 2] = [0b10100001, 0b10100000];
    let output1: [u8; 16] = padding.pad(&input1).unwrap();
    let wanted1: [u8; 16] = [
        0b10100001, 0b10100000, 0x0e, 0x0e, 0x0e, 0x0e, 0x0e, 0x0e, 0x0e, 0x0e, 0x0e, 0x0e, 0x0e,
        0x0e, 0x0e, 0x0e,
    ];
    assert_eq!(output1, wanted1);

    let input2: [u8; 0] = [];
    let output2: [u8; 16] = padding.pad(&input2).unwrap();
    let wanted2: [u8; 16] = [0x10; 16];
    assert_eq!(output2, wanted2);

    let input3: [u8; 15] = [
        0x01, 0x02, 0x03, 0x04, 0x05, 0x06, 0x07, 0x08, 0x09, 0x0A, 0x0B, 0x0C, 0x0D, 0x0E, 0x0F,
    ];
    let output3: [u8; 16] = padding.pad(&input3).unwrap();
    let wanted3: [u8; 16] = [
        0x01, 0x02, 0x03, 0x04, 0x05, 0x06, 0x07, 0x08, 0x09, 0x0A, 0x0B, 0x0C, 0x0D, 0x0E, 0x0F,
        0b00000001,
    ];
    assert_eq!(output3, wanted3);
}

#[test]
fn pkcs7_de_padding() {
    //! Tests the PKCS#7 de-padding.

    let padding: Padding = Padding::new(PaddingTypes::PKCS7);

    let input1: [u8; 16] = [
        0b10100001, 0b10100000, 0x0e, 0x0e, 0x0e, 0x0e, 0x0e, 0x0e, 0x0e, 0x0e, 0x0e, 0x0e, 0x0e,
        0x0e, 0x0e, 0x0e,
    ];
    let output1: Vec<u8> = padding.de_pad(&input1).unwrap();
    let wanted1: [u8; 2] = [0b10100001, 0b10100000];
    assert_eq!(output1, wanted1);

    let input2: [u8; 16] = [0x10; 16];
    let output2: Vec<u8> = padding.de_pad(&input2).unwrap();
    let wanted2: [u8; 0] = [];
    assert_eq!(output2, wanted2);

    let input3: [u8; 16] = [
        0x01, 0x02, 0x03, 0x04, 0x05, 0x06, 0x07, 0x08, 0x09, 0x0A, 0x0B, 0x0C, 0x0D, 0x0E, 0x0F,
        0b00000001,
    ];
    let output3: Vec<u8> = padding.de_pad(&input3).unwrap();
    let wanted3: [u8; 15] = [
        0x01, 0x02, 0x03, 0x04, 0x05, 0x06, 0x07, 0x08, 0x09, 0x0A, 0x0B, 0x0C, 0x0D, 0x0E, 0x0F,
    ];
    assert_eq!(output3, wanted3);
}

#[test]
fn iso78164_padding() {
    //! Tests the ISO 7816-4 padding.

    let padding: Padding = Padding::new(PaddingTypes::ISO78164);

    let input1: [u8; 2] = [0b10100001, 0b10100000];
    let output1: [u8; 16] = padding.pad(&input1).unwrap();
    let wanted1: [u8; 16] = [
        0b10100001, 0b10100000, 0b10000000, 0, 0, 0, 0, 0, 0, 0, 0, 0, 0, 0, 0, 0,
    ];
    assert_eq!(output1, wanted1);

    let input2: [u8; 0] = [];
    let output2: [u8; 16] = padding.pad(&input2).unwrap();
    let wanted2: [u8; 16] = [0b10000000, 0, 0, 0, 0, 0, 0, 0, 0, 0, 0, 0, 0, 0, 0, 0];
    assert_eq!(output2, wanted2);

    let input3: [u8; 15] = [
        0x01, 0x02, 0x03, 0x04, 0x05, 0x06, 0x07, 0x08, 0x09, 0x0A, 0x0B, 0x0C, 0x0D, 0x0E, 0x0F,
    ];
    let output3: [u8; 16] = padding.pad(&input3).unwrap();
    let wanted3: [u8; 16] = [
        0x01, 0x02, 0x03, 0x04, 0x05, 0x06, 0x07, 0x08, 0x09, 0x0A, 0x0B, 0x0C, 0x0D, 0x0E, 0x0F,
        0b10000000,
    ];
    assert_eq!(output3, wanted3);
}

#[test]
fn iso78164_de_padding() {
    //! Tests the ISO 7816-4 de-padding.

    let padding: Padding = Padding::new(PaddingTypes::ISO78164);

    let input1: [u8; 16] = [
        0b10100001, 0b10100000, 0b10000000, 0, 0, 0, 0, 0, 0, 0, 0, 0, 0, 0, 0, 0,
    ];
    let output1: Vec<u8> = padding.de_pad(&input1).unwrap();
    let wanted1: [u8; 2] = [0b10100001, 0b10100000];
    assert_eq!(output1, wanted1);

    let input2: [u8; 16] = [0b10000000, 0, 0, 0, 0, 0, 0, 0, 0, 0, 0, 0, 0, 0, 0, 0];
    let output2: Vec<u8> = padding.de_pad(&input2).unwrap();
    let wanted2: [u8; 0] = [];
    assert_eq!(output2, wanted2);

    let input3: [u8; 16] = [
        0x01, 0x02, 0x03, 0x04, 0x05, 0x06, 0x07, 0x08, 0x09, 0x0A, 0x0B, 0x0C, 0x0D, 0x0E, 0x0F,
        0b10000000,
    ];
    let output3: Vec<u8> = padding.de_pad(&input3).unwrap();
    let wanted3: [u8; 15] = [
        0x01, 0x02, 0x03, 0x04, 0x05, 0x06, 0x07, 0x08, 0x09, 0x0A, 0x0B, 0x0C, 0x0D, 0x0E, 0x0F,
    ];
    assert_eq!(output3, wanted3);
}

#[test]
fn x923_padding() {
    //! Tests the ANSI X9.23 padding.

    let padding: Padding = Padding::new(PaddingTypes::X923);

    let input1: [u8; 2] = [0b10100001, 0b10100000];
    let output1: [u8; 16] = padding.pad(&input1).unwrap();
    let wanted1: [u8; 16] = [
        0b10100001, 0b10100000, 0, 0, 0, 0, 0, 0, 0, 0, 0, 0, 0, 0, 0, 0x0e,
    ];
    assert_eq!(output1, wanted1);

    let input2: [u8; 0] = [];
    let output2: [u8; 16] = padding.pad(&input2).unwrap();
    let mut wanted2: [u8; 16] = [0; 16];
    wanted2[15] = 0x10;
    assert_eq!(output2, wanted2);

    let input3: [u8; 15] = [
        0x01, 0x02, 0x03, 0x04, 0x05, 0x06, 0x07, 0x08, 0x09, 0x0A, 0x0B, 0x0C, 0x0D, 0x0E, 0x0F,
    ];
    let output3: [u8; 16] = padding.pad(&input3).unwrap();
    let wanted3: [u8; 16] = [
        0x01, 0x02, 0x03, 0x04, 0x05, 0x06, 0x07, 0x08, 0x09, 0x0A, 0x0B, 0x0C, 0x0D, 0x0E, 0x0F,
        0b00000001,
    ];
    assert_eq!(output3, wanted3);
}

#[test]
fn x923_de_padding() {
    //! Tests the ANSI X9.23 de-padding.

    let padding: Padding = Padding::new(PaddingTypes::X923);

    let input1: [u8; 16] = [
        0b10100001, 0b10100000, 0, 0, 0, 0, 0, 0, 0, 0, 0, 0, 0, 0, 0, 0x0e,
    ];
    let output1: Vec<u8> = padding.de_pad(&input1).unwrap();
    let wanted1: [u8; 2] = [0b10100001, 0b10100000];
    assert_eq!(output1, wanted1);

    let mut input2: [u8; 16] = [0; 16];
    input2[15] = 0x10;
    let output2: Vec<u8> = padding.de_pad(&input2).unwrap();
    let wanted2: [u8; 0] = [];
    assert_eq!(output2, wanted2);

    let input3: [u8; 16] = [
        0x01, 0x02, 0x03, 0x04, 0x05, 0x06, 0x07, 0x08, 0x09, 0x0A, 0x0B, 0x0C, 0x0D, 0x0E, 0x0F,
        0b00000001,
    ];
    let output3: Vec<u8> = padding.de_pad(&input3).unwrap();
    let wanted3: [u8; 15] = [
        0x01, 0x02, 0x03, 0x04, 0x05, 0x06, 0x07, 0x08, 0x09, 0x0A, 0x0B, 0x0C, 0x0D, 0x0E, 0x0F,
    ];
    assert_eq!(output3, wanted3);
}

#[test]
fn padding_errors() {
    let padding_type = PaddingTypes::PKCS7;
    let input = [
        0x01, 0x02, 0x03, 0x04, 0x05, 0x06, 0x07, 0x08, 0x09, 0x0A, 0x0B, 0x0C,
    ];
    let mut padded_input = [
        0x01, 0x02, 0x03, 0x04, 0x05, 0x06, 0x07, 0x08, 0x09, 0x0A, 0x0B, 0x0C, 0x04, 0x04, 0x04,
        0x04,
    ];
    let padding = Padding::new(padding_type);

    assert_eq!(padding.pad(&input).unwrap(), padded_input);
    assert_eq!(padding.pad(&[0; 16]), Err(PaddingError::InvalidSize));
    assert_eq!(padding.pad(&[0; 17]), Err(PaddingError::InvalidSize));

    assert_eq!(padding.de_pad(&padded_input).unwrap(), input);
    assert_eq!(padding.de_pad(&[0; 15]), Err(PaddingError::InvalidPaddedSize));
    assert_eq!(padding.de_pad(&[0; 17]), Err(PaddingError::InvalidPaddedSize));

    padded_input[15] = 0x05;
    assert_eq!(padding.de_pad(&padded_input), Err(PaddingError::InvalidPadding));

    let new_padding = Padding::new(PaddingTypes::NoPadding);
    assert_eq!(new_padding.pad(&input), Err(PaddingError::NonePadding));
    assert_eq!(new_padding.de_pad(&padded_input), Err(PaddingError::NonePadding));
}

#[test]
fn iso10126_padding_layout() {
    //! The ISO 10126-2 pad keeps the input as prefix and writes the pad
    //! count into the final byte; the interior pad bytes are random and
    //! stay unchecked.

    let padding = Padding::new(PaddingTypes::ISO10126);

    let input: [u8; 5] = [0xaa, 0xbb, 0xcc, 0xdd, 0xee];
    let output: [u8; 16] = padding.pad(&input).unwrap();
    assert_eq!(&output[..5], &input);
    assert_eq!(output[15], 11);

    let empty: [u8; 0] = [];
    let output2: [u8; 16] = padding.pad(&empty).unwrap();
    assert_eq!(output2[15], 16);
}

#[test]
fn iso10126_de_padding() {
    //! ISO 10126-2 de-padding reads only the trailing count byte, so any
    //! interior pad bytes are accepted; an out-of-range count is rejected.

    let padding = Padding::new(PaddingTypes::ISO10126);

    let input: [u8; 16] = [
        0xaa, 0xbb, 0xcc, 0xdd, 0xee, 0x17, 0x39, 0x5a, 0x01, 0xfe, 0x88, 0x42, 0x90, 0x13, 0x77,
        0x0b,
    ];
    let output: Vec<u8> = padding.de_pad(&input).unwrap();
    let wanted: [u8; 5] = [0xaa, 0xbb, 0xcc, 0xdd, 0xee];
    assert_eq!(output, wanted);

    let mut bad = input;
    bad[15] = 0x11;
    assert_eq!(padding.de_pad(&bad), Err(PaddingError::InvalidPadding));
}

#[test]
fn iso10126_round_trip() {
    //! Padding then de-padding under ISO 10126-2 gives back the input for
    //! every length below one block, whatever the random bytes were.

    let padding = Padding::new(PaddingTypes::ISO10126);

    for len in 0..16usize {
        let input: Vec<u8> = (0..len as u8).map(|b| b.wrapping_mul(37).wrapping_add(5)).collect();
        let block: [u8; 16] = padding.pad(&input).unwrap();
        let output: Vec<u8> = padding.de_pad(&block).unwrap();
        assert_eq!(output, input);
    }
}

#[test]
fn all_schemes_round_trip() {
    //! Padding then de-padding gives back the input, for every scheme that
    //! allows padding and every input length below one block.

    for scheme in [
        PaddingTypes::PKCS7,
        PaddingTypes::ISO78164,
        PaddingTypes::ISO10126,
        PaddingTypes::X923,
    ] {
        let padding = Padding::new(scheme);
        for len in 0..16usize {
            let input: Vec<u8> = (0..len as u8).map(|b| b.wrapping_mul(29).wrapping_add(3)).collect();
            let block: [u8; 16] = padding.pad(&input).unwrap();
            let output: Vec<u8> = padding.de_pad(&block).unwrap();
            assert_eq!(output, input);
        }
    }
}

#[test]
fn x923_tamper_detection() {
    //! Flipping the final pad-count byte of a validly padded X9.23 block to
    //! an out-of-range value makes de-padding fail with `InvalidPadding`.

    let padding = Padding::new(PaddingTypes::X923);

    let input: [u8; 4] = [1, 2, 3, 4];
    let mut block: [u8; 16] = padding.pad(&input).unwrap();
    block[15] = 0x2a;
    assert_eq!(padding.de_pad(&block), Err(PaddingError::InvalidPadding));
}
