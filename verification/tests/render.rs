use biquad::pack::FormattedCoef;
use biquad::pack::FormattedCoefs;

fn distinguishable() -> FormattedCoefs {
    FormattedCoefs {
        a1: FormattedCoef {
            hi: 10,
            mid: 11,
            lo: 12,
        },
        a2: FormattedCoef {
            hi: 13,
            mid: 14,
            lo: 15,
        },
        b0: FormattedCoef { hi: 1, mid: 2, lo: 3 },
        b1: FormattedCoef { hi: 4, mid: 5, lo: 6 },
        b2: FormattedCoef { hi: 7, mid: 8, lo: 9 },
    }
}

#[test]
fn dec_lists_wire_order_not_field_order() {
    // b0 b1 b2 a1 a2, not the declaration order a1 a2 b0 b1 b2.
    assert_eq!(
        distinguishable().to_dec(),
        "1 2 3 4 5 6 7 8 9 10 11 12 13 14 15"
    );
}

#[test]
fn hex_lists_wire_order_not_field_order() {
    assert_eq!(
        distinguishable().to_hex(),
        "01 02 03 04 05 06 07 08 09 0A 0B 0C 0D 0E 0F"
    );
}

#[test]
fn hex_bytes_are_two_uppercase_digits() {
    let set = FormattedCoefs {
        a1: FormattedCoef {
            hi: 0xE0,
            mid: 0,
            lo: 0,
        },
        a2: FormattedCoef {
            hi: 0xFF,
            mid: 0xAB,
            lo: 0x0F,
        },
        b0: FormattedCoef { hi: 0, mid: 0, lo: 0 },
        b1: FormattedCoef {
            hi: 0x10,
            mid: 0x2F,
            lo: 0x9F,
        },
        b2: FormattedCoef {
            hi: 0x01,
            mid: 0x99,
            lo: 0xCD,
        },
    };
    assert_eq!(
        set.to_hex(),
        "00 00 00 10 2F 9F 01 99 CD E0 00 00 FF AB 0F"
    );
}

#[test]
fn dec_bytes_are_unpadded() {
    let set = FormattedCoefs {
        a1: FormattedCoef {
            hi: 100,
            mid: 200,
            lo: 255,
        },
        a2: FormattedCoef {
            hi: 99,
            mid: 10,
            lo: 9,
        },
        b0: FormattedCoef { hi: 0, mid: 1, lo: 2 },
        b1: FormattedCoef {
            hi: 16,
            mid: 0,
            lo: 0,
        },
        b2: FormattedCoef {
            hi: 224,
            mid: 0,
            lo: 0,
        },
    };
    assert_eq!(
        set.to_dec(),
        "0 1 2 16 0 0 224 0 0 100 200 255 99 10 9"
    );
}
