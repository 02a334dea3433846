//! The laws of the charset type: statements that relate parsing, formatting
//! and equality, proved once and for all inputs.

use vstd::prelude::*;
use vstd::assert_seqs_equal;

use crate::ascii::eq_ignore_case;
use crate::ascii::lower;
use crate::charset_eq;
use crate::parses_to;
use crate::spec_lookup;
use crate::Charset;

verus! {

/// The ASCII-lowercase image of every canonical name, written out. These
/// concrete forms are what decides that the canonical names are pairwise
/// distinct up to case.
proof fn lemma_lower_names()
    ensures
        lower("US-ASCII"@) == "us-ascii"@,
        lower("ISO-8859-1"@) == "iso-8859-1"@,
        lower("ISO-8859-2"@) == "iso-8859-2"@,
        lower("ISO-8859-3"@) == "iso-8859-3"@,
        lower("ISO-8859-4"@) == "iso-8859-4"@,
        lower("ISO-8859-5"@) == "iso-8859-5"@,
        lower("ISO-8859-6"@) == "iso-8859-6"@,
        lower("ISO-8859-7"@) == "iso-8859-7"@,
        lower("ISO-8859-8"@) == "iso-8859-8"@,
        lower("ISO-8859-9"@) == "iso-8859-9"@,
        lower("ISO-8859-10"@) == "iso-8859-10"@,
        lower("Shift-JIS"@) == "shift-jis"@,
        lower("EUC-JP"@) == "euc-jp"@,
        lower("ISO-2022-KR"@) == "iso-2022-kr"@,
        lower("EUC-KR"@) == "euc-kr"@,
        lower("ISO-2022-JP"@) == "iso-2022-jp"@,
        lower("ISO-2022-JP-2"@) == "iso-2022-jp-2"@,
        lower("ISO-8859-6-E"@) == "iso-8859-6-e"@,
        lower("ISO-8859-6-I"@) == "iso-8859-6-i"@,
        lower("ISO-8859-8-E"@) == "iso-8859-8-e"@,
        lower("ISO-8859-8-I"@) == "iso-8859-8-i"@,
        lower("GB2312"@) == "gb2312"@,
        lower("Big5"@) == "big5"@,
        lower("KOI8-R"@) == "koi8-r"@,
{
    reveal_strlit("US-ASCII");
    reveal_strlit("us-ascii");
    assert_seqs_equal!(lower("US-ASCII"@), "us-ascii"@);
    reveal_strlit("ISO-8859-1");
    reveal_strlit("iso-8859-1");
    assert_seqs_equal!(lower("ISO-8859-1"@), "iso-8859-1"@);
    reveal_strlit("ISO-8859-2");
    reveal_strlit("iso-8859-2");
    assert_seqs_equal!(lower("ISO-8859-2"@), "iso-8859-2"@);
    reveal_strlit("ISO-8859-3");
    reveal_strlit("iso-8859-3");
    assert_seqs_equal!(lower("ISO-8859-3"@), "iso-8859-3"@);
    reveal_strlit("ISO-8859-4");
    reveal_strlit("iso-8859-4");
    assert_seqs_equal!(lower("ISO-8859-4"@), "iso-8859-4"@);
    reveal_strlit("ISO-8859-5");
    reveal_strlit("iso-8859-5");
    assert_seqs_equal!(lower("ISO-8859-5"@), "iso-8859-5"@);
    reveal_strlit("ISO-8859-6");
    reveal_strlit("iso-8859-6");
    assert_seqs_equal!(lower("ISO-8859-6"@), "iso-8859-6"@);
    reveal_strlit("ISO-8859-7");
    reveal_strlit("iso-8859-7");
    assert_seqs_equal!(lower("ISO-8859-7"@), "iso-8859-7"@);
    reveal_strlit("ISO-8859-8");
    reveal_strlit("iso-8859-8");
    assert_seqs_equal!(lower("ISO-8859-8"@), "iso-8859-8"@);
    reveal_strlit("ISO-8859-9");
    reveal_strlit("iso-8859-9");
    assert_seqs_equal!(lower("ISO-8859-9"@), "iso-8859-9"@);
    reveal_strlit("ISO-8859-10");
    reveal_strlit("iso-8859-10");
    assert_seqs_equal!(lower("ISO-8859-10"@), "iso-8859-10"@);
    reveal_strlit("Shift-JIS");
    reveal_strlit("shift-jis");
    assert_seqs_equal!(lower("Shift-JIS"@), "shift-jis"@);
    reveal_strlit("EUC-JP");
    reveal_strlit("euc-jp");
    assert_seqs_equal!(lower("EUC-JP"@), "euc-jp"@);
    reveal_strlit("ISO-2022-KR");
    reveal_strlit("iso-2022-kr");
    assert_seqs_equal!(lower("ISO-2022-KR"@), "iso-2022-kr"@);
    reveal_strlit("EUC-KR");
    reveal_strlit("euc-kr");
    assert_seqs_equal!(lower("EUC-KR"@), "euc-kr"@);
    reveal_strlit("ISO-2022-JP");
    reveal_strlit("iso-2022-jp");
    assert_seqs_equal!(lower("ISO-2022-JP"@), "iso-2022-jp"@);
    reveal_strlit("ISO-2022-JP-2");
    reveal_strlit("iso-2022-jp-2");
    assert_seqs_equal!(lower("ISO-2022-JP-2"@), "iso-2022-jp-2"@);
    reveal_strlit("ISO-8859-6-E");
    reveal_strlit("iso-8859-6-e");
    assert_seqs_equal!(lower("ISO-8859-6-E"@), "iso-8859-6-e"@);
    reveal_strlit("ISO-8859-6-I");
    reveal_strlit("iso-8859-6-i");
    assert_seqs_equal!(lower("ISO-8859-6-I"@), "iso-8859-6-i"@);
    reveal_strlit("ISO-8859-8-E");
    reveal_strlit("iso-8859-8-e");
    assert_seqs_equal!(lower("ISO-8859-8-E"@), "iso-8859-8-e"@);
    reveal_strlit("ISO-8859-8-I");
    reveal_strlit("iso-8859-8-i");
    assert_seqs_equal!(lower("ISO-8859-8-I"@), "iso-8859-8-i"@);
    reveal_strlit("GB2312");
    reveal_strlit("gb2312");
    assert_seqs_equal!(lower("GB2312"@), "gb2312"@);
    reveal_strlit("Big5");
    reveal_strlit("big5");
    assert_seqs_equal!(lower("Big5"@), "big5"@);
    reveal_strlit("KOI8-R");
    reveal_strlit("koi8-r");
    assert_seqs_equal!(lower("KOI8-R"@), "koi8-r"@);
}

/// The lookup that backs parsing finds every registered variant under its
/// own canonical name: the scan of the table matches the variant's own entry
/// and no earlier one.
pub proof fn lemma_lookup_finds(c: Charset)
    requires
        c.is_registered(),
    ensures
        spec_lookup(c.spec_name()) == Some(c),
{
    lemma_lower_names();
    reveal_strlit("us-ascii");
    reveal_strlit("iso-8859-1");
    reveal_strlit("iso-8859-2");
    reveal_strlit("iso-8859-3");
    reveal_strlit("iso-8859-4");
    reveal_strlit("iso-8859-5");
    reveal_strlit("iso-8859-6");
    reveal_strlit("iso-8859-7");
    reveal_strlit("iso-8859-8");
    reveal_strlit("iso-8859-9");
    reveal_strlit("iso-8859-10");
    reveal_strlit("shift-jis");
    reveal_strlit("euc-jp");
    reveal_strlit("iso-2022-kr");
    reveal_strlit("euc-kr");
    reveal_strlit("iso-2022-jp");
    reveal_strlit("iso-2022-jp-2");
    reveal_strlit("iso-8859-6-e");
    reveal_strlit("iso-8859-6-i");
    reveal_strlit("iso-8859-8-e");
    reveal_strlit("iso-8859-8-i");
    reveal_strlit("gb2312");
    reveal_strlit("big5");
    reveal_strlit("koi8-r");
    // A length or a single character distinguishes every pair of lowercase
    // forms; spell those out so the table scan can discard the entries that
    // do not match.
    assert("us-ascii"@.len() == 8);
    assert("iso-8859-1"@.len() == 10 && "iso-8859-1"@[9] == '1');
    assert("iso-8859-2"@.len() == 10 && "iso-8859-2"@[9] == '2');
    assert("iso-8859-3"@.len() == 10 && "iso-8859-3"@[9] == '3');
    assert("iso-8859-4"@.len() == 10 && "iso-8859-4"@[9] == '4');
    assert("iso-8859-5"@.len() == 10 && "iso-8859-5"@[9] == '5');
    assert("iso-8859-6"@.len() == 10 && "iso-8859-6"@[9] == '6');
    assert("iso-8859-7"@.len() == 10 && "iso-8859-7"@[9] == '7');
    assert("iso-8859-8"@.len() == 10 && "iso-8859-8"@[9] == '8');
    assert("iso-8859-9"@.len() == 10 && "iso-8859-9"@[9] == '9');
    assert("iso-8859-10"@.len() == 11 && "iso-8859-10"@[4] == '8' && "iso-8859-10"@[9] == '1');
    assert("shift-jis"@.len() == 9);
    assert("euc-jp"@.len() == 6 && "euc-jp"@[0] == 'e' && "euc-jp"@[4] == 'j');
    assert("iso-2022-kr"@.len() == 11 && "iso-2022-kr"@[4] == '2' && "iso-2022-kr"@[9] == 'k');
    assert("euc-kr"@.len() == 6 && "euc-kr"@[0] == 'e' && "euc-kr"@[4] == 'k');
    assert("iso-2022-jp"@.len() == 11 && "iso-2022-jp"@[4] == '2' && "iso-2022-jp"@[9] == 'j');
    assert("iso-2022-jp-2"@.len() == 13);
    assert("iso-8859-6-e"@.len() == 12 && "iso-8859-6-e"@[9] == '6' && "iso-8859-6-e"@[11]
        == 'e');
    assert("iso-8859-6-i"@.len() == 12 && "iso-8859-6-i"@[9] == '6' && "iso-8859-6-i"@[11]
        == 'i');
    assert("iso-8859-8-e"@.len() == 12 && "iso-8859-8-e"@[9] == '8' && "iso-8859-8-e"@[11]
        == 'e');
    assert("iso-8859-8-i"@.len() == 12 && "iso-8859-8-i"@[9] == '8' && "iso-8859-8-i"@[11]
        == 'i');
    assert("gb2312"@.len() == 6 && "gb2312"@[0] == 'g');
    assert("big5"@.len() == 4);
    assert("koi8-r"@.len() == 6 && "koi8-r"@[0] == 'k');
    match c {
        Charset::UsAscii => assert(spec_lookup(c.spec_name()) == Some(Charset::UsAscii)),
        Charset::Iso88591 => assert(spec_lookup(c.spec_name()) == Some(Charset::Iso88591)),
        Charset::Iso88592 => assert(spec_lookup(c.spec_name()) == Some(Charset::Iso88592)),
        Charset::Iso88593 => assert(spec_lookup(c.spec_name()) == Some(Charset::Iso88593)),
        Charset::Iso88594 => assert(spec_lookup(c.spec_name()) == Some(Charset::Iso88594)),
        Charset::Iso88595 => assert(spec_lookup(c.spec_name()) == Some(Charset::Iso88595)),
        Charset::Iso88596 => assert(spec_lookup(c.spec_name()) == Some(Charset::Iso88596)),
        Charset::Iso88597 => assert(spec_lookup(c.spec_name()) == Some(Charset::Iso88597)),
        Charset::Iso88598 => assert(spec_lookup(c.spec_name()) == Some(Charset::Iso88598)),
        Charset::Iso88599 => assert(spec_lookup(c.spec_name()) == Some(Charset::Iso88599)),
        Charset::Iso885910 => assert(spec_lookup(c.spec_name()) == Some(Charset::Iso885910)),
        Charset::ShiftJis => assert(spec_lookup(c.spec_name()) == Some(Charset::ShiftJis)),
        Charset::EucJp => assert(spec_lookup(c.spec_name()) == Some(Charset::EucJp)),
        Charset::Iso2022Kr => assert(spec_lookup(c.spec_name()) == Some(Charset::Iso2022Kr)),
        Charset::EucKr => assert(spec_lookup(c.spec_name()) == Some(Charset::EucKr)),
        Charset::Iso2022Jp => assert(spec_lookup(c.spec_name()) == Some(Charset::Iso2022Jp)),
        Charset::Iso2022Jp2 => assert(spec_lookup(c.spec_name()) == Some(Charset::Iso2022Jp2)),
        Charset::Iso88596E => assert(spec_lookup(c.spec_name()) == Some(Charset::Iso88596E)),
        Charset::Iso88596I => assert(spec_lookup(c.spec_name()) == Some(Charset::Iso88596I)),
        Charset::Iso88598E => assert(spec_lookup(c.spec_name()) == Some(Charset::Iso88598E)),
        Charset::Iso88598I => assert(spec_lookup(c.spec_name()) == Some(Charset::Iso88598I)),
        Charset::Gb2312 => assert(spec_lookup(c.spec_name()) == Some(Charset::Gb2312)),
        Charset::Big5 => assert(spec_lookup(c.spec_name()) == Some(Charset::Big5)),
        Charset::Koi8R => assert(spec_lookup(c.spec_name()) == Some(Charset::Koi8R)),
        Charset::Unregistered(_) => assert(false),
    }
}

/// The lookup that backs parsing is blind to ASCII case: two inputs that are
/// equal up to case are looked up to the same entry.
pub proof fn lemma_lookup_respects_case(s: Seq<char>, t: Seq<char>)
    requires
        eq_ignore_case(s, t),
    ensures
        spec_lookup(s) == spec_lookup(t),
{
}

/// Table integrity: no two distinct registered variants have canonical names
/// that are equal up to ASCII case, so a parse can match at most one entry,
/// and every registered variant owns exactly one entry (its own, which the
/// scan finds by `lemma_lookup_finds`).
pub proof fn lemma_table_names_distinct(a: Charset, b: Charset)
    requires
        a.is_registered(),
        b.is_registered(),
        eq_ignore_case(a.spec_name(), b.spec_name()),
    ensures
        a == b,
{
    lemma_lookup_finds(a);
    lemma_lookup_finds(b);
    lemma_lookup_respects_case(a.spec_name(), b.spec_name());
}

/// Round-trip: parsing the rendered form of a registered variant gives that
/// variant back, under the charset equality contract.
pub proof fn lemma_parse_format_round_trip(v: Charset)
    requires
        v.is_registered(),
    ensures
        spec_lookup(v.spec_name()) == Some(v),
        forall|c: Charset| parses_to(v.spec_name(), c) ==> charset_eq(c, v) && charset_eq(v, c),
{
    lemma_lookup_finds(v);
}

/// Case insensitivity of parse: inputs that are equal up to ASCII case parse
/// to equal charsets, under the charset equality contract.
pub proof fn lemma_parse_case_insensitive(s: Seq<char>, t: Seq<char>, c1: Charset, c2: Charset)
    requires
        eq_ignore_case(s, t),
        parses_to(s, c1),
        parses_to(t, c2),
    ensures
        charset_eq(c1, c2),
        charset_eq(c2, c1),
{
    lemma_lookup_respects_case(s, t);
}

/// Determinism of parse: two parses of the same input yield charsets that are
/// equal under the charset equality contract and render to the same string.
pub proof fn lemma_parse_deterministic(s: Seq<char>, c1: Charset, c2: Charset)
    requires
        parses_to(s, c1),
        parses_to(s, c2),
    ensures
        charset_eq(c1, c2),
        c1.spec_name() == c2.spec_name(),
{
    lemma_parse_case_insensitive(s, s, c1, c2);
}

/// Cross-shape inequality: a registered variant and an unregistered value
/// are never equal, even when the unregistered string spells the variant's
/// canonical name.
pub proof fn lemma_cross_shape_unequal(r: Charset, u: Charset)
    requires
        r.is_registered(),
        u is Unregistered,
    ensures
        !charset_eq(r, u),
        !charset_eq(u, r),
{
}

} // verus!
