use base64::Engine;
use hotdog::base64::base64_encode;

fn sample(n: usize) -> Vec<u8> {
    (0..n).map(|i| ((i * 37 + 11) % 256) as u8).collect()
}

#[test]
fn empty_input() {
    assert_eq!(base64_encode(&[]), "");
}

#[test]
fn classic_vector() {
    assert_eq!(base64_encode(b"Man"), "TWFu");
    assert_eq!(base64_encode(b"Ma"), "TWE=");
    assert_eq!(base64_encode(b"M"), "TQ==");
}

#[test]
fn binary_vector() {
    assert_eq!(base64_encode(&[0x00, 0x00, 0x00]), "AAAA");
    assert_eq!(base64_encode(&[0xFF, 0xFF, 0xFF]), "////");
}

#[test]
fn short_tails_are_canonical() {
    assert_eq!(base64_encode(&[0x00]), "AA==");
    assert_eq!(base64_encode(&[0xFF]), "/w==");
    assert_eq!(base64_encode(&[0xFF, 0xFF]), "//8=");
    assert_eq!(base64_encode(&[0xFB, 0xEF, 0xBE]), "++++");
}

#[test]
fn longer_text() {
    assert_eq!(base64_encode(b"Many hands make light work."), "TWFueSBoYW5kcyBtYWtlIGxpZ2h0IHdvcmsu");
    assert_eq!(base64_encode(b"light work"), "bGlnaHQgd29yaw==");
    assert_eq!(base64_encode(b"light wor"), "bGlnaHQgd29y");
    assert_eq!(base64_encode(b"light wo"), "bGlnaHQgd28=");
}

#[test]
fn every_symbol_in_index_order() {
    let mut data = Vec::new();
    let mut v: u32 = 0;
    while v < 64 {
        let group = (v << 18) | ((v + 1) << 12) | ((v + 2) << 6) | (v + 3);
        data.push((group >> 16) as u8);
        data.push((group >> 8) as u8);
        data.push(group as u8);
        v += 4;
    }
    assert_eq!(
        base64_encode(&data),
        "ABCDEFGHIJKLMNOPQRSTUVWXYZabcdefghijklmnopqrstuvwxyz0123456789+/"
    );
}

#[test]
fn length_is_four_per_started_group() {
    for n in 0..100usize {
        let out = base64_encode(&sample(n));
        assert_eq!(out.len(), 4 * ((n + 2) / 3));
    }
    assert_eq!(base64_encode(&sample(1)).len(), 4);
    assert_eq!(base64_encode(&sample(3)).len(), 4);
    assert_eq!(base64_encode(&sample(4)).len(), 8);
}

#[test]
fn output_stays_in_the_alphabet() {
    for n in 0..100usize {
        let out = base64_encode(&sample(n));
        let pad = (3 - n % 3) % 3;
        let chars: Vec<char> = out.chars().collect();
        for (j, c) in chars.iter().enumerate() {
            if j < chars.len() - pad {
                assert!(c.is_ascii_alphanumeric() || *c == '+' || *c == '/');
            } else {
                assert_eq!(*c, '=');
            }
        }
        assert!(!out.contains('\n'));
    }
}

#[test]
fn round_trip_through_a_standard_decoder() {
    for n in 0..200usize {
        let data = sample(n);
        let out = base64_encode(&data);
        let back = base64::engine::general_purpose::STANDARD.decode(out.as_bytes()).unwrap();
        assert_eq!(back, data);
    }
}

#[test]
fn agrees_with_a_standard_encoder() {
    for n in 0..200usize {
        let data = sample(n);
        assert_eq!(base64_encode(&data), base64::engine::general_purpose::STANDARD.encode(&data));
    }
}
