use charsets::Charset;
use charsets::Error;

fn registered() -> Vec<Charset> {
    vec![
        Charset::UsAscii,
        Charset::Iso88591,
        Charset::Iso88592,
        Charset::Iso88593,
        Charset::Iso88594,
        Charset::Iso88595,
        Charset::Iso88596,
        Charset::Iso88597,
        Charset::Iso88598,
        Charset::Iso88599,
        Charset::Iso885910,
        Charset::ShiftJis,
        Charset::EucJp,
        Charset::Iso2022Kr,
        Charset::EucKr,
        Charset::Iso2022Jp,
        Charset::Iso2022Jp2,
        Charset::Iso88596E,
        Charset::Iso88596I,
        Charset::Iso88598E,
        Charset::Iso88598I,
        Charset::Gb2312,
        Charset::Big5,
        Charset::Koi8R,
    ]
}

#[test]
fn test_parse() {
    assert_eq!(Charset::UsAscii, "us-ascii".parse().unwrap());
    assert_eq!(Charset::UsAscii, "US-Ascii".parse().unwrap());
    assert_eq!(Charset::UsAscii, "US-ASCII".parse().unwrap());
    assert_eq!(Charset::ShiftJis, "Shift-JIS".parse().unwrap());
    assert_eq!(
        Charset::Unregistered("ABCD".to_owned()),
        "abcd".parse().unwrap()
    );
}

#[test]
fn test_display() {
    assert_eq!("US-ASCII", Charset::UsAscii.name());
    assert_eq!("ABCD", Charset::Unregistered("ABCD".to_owned()).name());
}

#[test]
fn test_cmp() {
    assert_eq!(
        Charset::Unregistered("foobar".to_owned()),
        Charset::Unregistered("FOOBAR".to_owned())
    );
}

// Parsing the rendered form of every registered variant gives the variant
// back.
#[test]
fn test_round_trip_all_registered() {
    for v in registered() {
        let parsed: Charset = v.name().parse().unwrap();
        assert_eq!(v, parsed);
    }
}

// Upper, lower and mixed casings of a canonical name all parse to the same
// charset.
#[test]
fn test_parse_case_insensitive() {
    for v in registered() {
        let canonical = v.name();
        let upper: Charset = canonical.to_uppercase().parse().unwrap();
        let lower: Charset = canonical.to_lowercase().parse().unwrap();
        assert_eq!(v, upper);
        assert_eq!(v, lower);
    }
    let mixed: Charset = "iSo-8859-1".parse().unwrap();
    assert_eq!(Charset::Iso88591, mixed);
}

// An input that matches no canonical name parses to an unregistered value
// that keeps the original casing, and two casings of it compare equal while
// rendering differently.
#[test]
fn test_unregistered_fallback() {
    let upper: Charset = "ABCD".parse().unwrap();
    let lower: Charset = "abcd".parse().unwrap();
    assert_eq!("ABCD", upper.name());
    assert_eq!("abcd", lower.name());
    assert_eq!(upper, lower);
}

// Rendering normalizes to the canonical form byte-for-byte, whatever casing
// was parsed.
#[test]
fn test_format_fidelity() {
    let parsed: Charset = "us-ascii".parse().unwrap();
    assert_eq!("US-ASCII", parsed.name());
}

// An unregistered value spelling a canonical name is not the registered
// variant: equality is structural on the tagged shape.
#[test]
fn test_cross_shape_inequality() {
    let unregistered = Charset::Unregistered("US-ASCII".to_owned());
    assert_ne!(unregistered, Charset::UsAscii);
    assert_ne!(Charset::UsAscii, unregistered);
}

// No two canonical names are equal once ASCII case is folded away.
#[test]
fn test_table_names_distinct() {
    let names: Vec<String> = registered().iter().map(|v| v.name().to_lowercase()).collect();
    for i in 0..names.len() {
        for j in 0..names.len() {
            if i != j {
                assert_ne!(names[i], names[j]);
            }
        }
    }
}

// Repeated parses of one input agree, and rendering is stable across calls.
#[test]
fn test_deterministic() {
    for input in ["us-ascii", "Shift-JIS", "ABCD", ""] {
        let first: Charset = input.parse().unwrap();
        let second: Charset = input.parse().unwrap();
        assert_eq!(first, second);
        assert_eq!(first.name(), second.name());
    }
}

// The canonical rendering of every registered variant, pinned exactly.
#[test]
fn test_canonical_names() {
    let expected = vec![
        "US-ASCII",
        "ISO-8859-1",
        "ISO-8859-2",
        "ISO-8859-3",
        "ISO-8859-4",
        "ISO-8859-5",
        "ISO-8859-6",
        "ISO-8859-7",
        "ISO-8859-8",
        "ISO-8859-9",
        "ISO-8859-10",
        "Shift-JIS",
        "EUC-JP",
        "ISO-2022-KR",
        "EUC-KR",
        "ISO-2022-JP",
        "ISO-2022-JP-2",
        "ISO-8859-6-E",
        "ISO-8859-6-I",
        "ISO-8859-8-E",
        "ISO-8859-8-I",
        "GB2312",
        "Big5",
        "KOI8-R",
    ];
    let variants = registered();
    assert_eq!(variants.len(), expected.len());
    for (v, name) in variants.iter().zip(expected.iter()) {
        assert_eq!(*name, v.name());
    }
}

// The registry name of the Big5 charset is "Big5", not a truncation of it.
#[test]
fn test_big5_name() {
    assert_eq!("Big5", Charset::Big5.name());
    assert_eq!(Charset::Big5, "big5".parse().unwrap());
    assert_eq!(Charset::Big5, "BIG5".parse().unwrap());
}

// Parsing never fails: even odd inputs come back as unregistered values.
#[test]
fn test_parse_total() {
    assert!(matches!("".parse::<Charset>(), Ok(_)));
    assert!(matches!("charset with spaces".parse::<Charset>(), Ok(_)));
    assert_eq!(
        Charset::Unregistered("".to_owned()),
        "".parse::<Charset>().unwrap()
    );
}

// The one error kind and its description. No current operation returns it;
// it is kept for future, stricter validation.
#[test]
fn test_error_description() {
    assert_eq!(Error::Invalid, Error::Invalid);
    assert_eq!("The given charset is invalid", Error::Invalid.description());
}

// Case folding in comparisons is ASCII-only: non-ASCII characters compare
// exactly.
#[test]
fn test_non_ascii_exact() {
    let a = Charset::Unregistered("caf\u{e9}".to_owned());
    let b = Charset::Unregistered("caf\u{c9}".to_owned());
    assert_ne!(a, b);
    let c = Charset::Unregistered("CAF\u{e9}".to_owned());
    assert_eq!(a, c);
}
