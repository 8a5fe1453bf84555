//! How deep bytes make the JSON reader recurse.
//!
//! `serde_json` refuses a document that nests more than 127 levels. Built with its feature
//! `raw_value`, as here, it reads an object whose first member has a name of its own as the document
//! that this member's text holds, and counts the levels of that document from zero again. Documents
//! inside texts inside documents thus add up, and bytes with enough of them exhaust any stack.
//! `is_shallow` tells the bytes on which the levels of all those documents are few together.
use crate::text::chars_of;
use vstd::prelude::*;

verus! {

/// The deepest nesting that `serde_json` reads within one document.
pub const READABLE_DEPTH: u8 = 127;

/// How many documents inside one another are read, however deep each of them nests.
pub const READABLE_DOCUMENTS: u8 = 9;

/// How many levels are read in all documents inside one another: `READABLE_DOCUMENTS` of
/// `READABLE_DEPTH` levels each. A level takes some hundreds of bytes of stack, so they fit into the
/// two megabytes that a thread has by default.
pub const READABLE_LEVELS: u16 = 1143;

/// The name of the member whose text `serde_json` reads as a document.
pub open spec fn document_name() -> Seq<u8> {
    "$serde_json::private::RawValue"@.map_values(|c: char| c as u8)
}

/// Whether the bytes from an index on begin with the name.
pub open spec fn name_at(bytes: Seq<u8>, i: int) -> bool {
    document_name().is_prefix_of(bytes.skip(i))
}

/// Whether the name stands anywhere in the bytes.
pub open spec fn has_name(bytes: Seq<u8>) -> bool {
    exists|i: int| 0 <= i <= bytes.len() && #[trigger] name_at(bytes, i)
}

/// The value of a hexadecimal digit.
pub open spec fn hex_value(b: u8) -> Option<u8> {
    if 48 <= b <= 57 {
        Some((b - 48) as u8)
    } else if 97 <= b <= 102 {
        Some((b - 87) as u8)
    } else if 65 <= b <= 70 {
        Some((b - 55) as u8)
    } else {
        None
    }
}

/// The byte that two hexadecimal digits give.
pub open spec fn hex_byte(high: u8, low: u8) -> Option<u8> {
    match (hex_value(high), hex_value(low)) {
        (Some(h), Some(l)) => Some((h * 16 + l) as u8),
        _ => None,
    }
}

/// The byte that a one-letter escape of JSON stands for.
pub open spec fn letter_escape(b: u8) -> Option<u8> {
    if b == 34 || b == 92 || b == 47 {
        Some(b)
    } else if b == 98 {
        Some(8u8)
    } else if b == 102 {
        Some(12u8)
    } else if b == 110 {
        Some(10u8)
    } else if b == 114 {
        Some(13u8)
    } else if b == 116 {
        Some(9u8)
    } else {
        None
    }
}

/// What the bytes begin with when their escapes are resolved, and how many bytes that takes: the
/// character of an escape, or else the first byte as it is. Every character beyond ASCII that is
/// written as a number is taken for the byte 128.
pub open spec fn first_resolved(bytes: Seq<u8>) -> (u8, int) {
    if bytes.len() >= 6 && bytes[0] == 92 && bytes[1] == 117 && hex_byte(bytes[2], bytes[3]) is Some
        && hex_byte(bytes[4], bytes[5]) is Some {
        let high = hex_byte(bytes[2], bytes[3])->0;
        let low = hex_byte(bytes[4], bytes[5])->0;
        if high == 0 && low < 128 {
            (low, 6)
        } else {
            (128, 6)
        }
    } else if bytes.len() >= 2 && bytes[0] == 92 && letter_escape(bytes[1]) is Some {
        (letter_escape(bytes[1])->0, 2)
    } else {
        (bytes[0], 1)
    }
}

/// The bytes with the escapes of JSON texts resolved, once.
pub open spec fn resolved_escapes(bytes: Seq<u8>) -> Seq<u8>
    decreases bytes.len(),
{
    if bytes.len() == 0 {
        Seq::empty()
    } else {
        let (b, n) = first_resolved(bytes);
        seq![b] + resolved_escapes(bytes.skip(n))
    }
}

/// Whether at most so many documents can stand inside one another. A document inside a text is there
/// when the escapes of the text are resolved, and so is the name that it stands under: where that
/// name is gone, no further document is read.
pub open spec fn has_few_documents(bytes: Seq<u8>, documents: nat) -> bool
    decreases documents,
{
    documents > 0 && {
        let next = resolved_escapes(bytes);
        !has_name(next) || has_few_documents(next, (documents - 1) as nat)
    }
}

/// Whether a byte can begin a level, at once or when escapes are resolved: a bracket, a brace or a
/// backslash.
pub open spec fn may_open(b: u8) -> bool {
    b == 91 || b == 123 || b == 92
}

/// How many bytes can begin a level.
pub open spec fn openings(bytes: Seq<u8>) -> nat
    decreases bytes.len(),
{
    if bytes.len() == 0 {
        0
    } else {
        openings(bytes.drop_last()) + if may_open(bytes.last()) {
            1nat
        } else {
            0
        }
    }
}

/// Whether the JSON reader recurses at most `READABLE_LEVELS` levels on the bytes: because few
/// documents can stand inside one another, or because few bytes can begin a level.
pub open spec fn shallow(bytes: Seq<u8>) -> bool {
    has_few_documents(bytes, READABLE_DOCUMENTS as nat) || openings(bytes) <= READABLE_LEVELS
}

fn hex_digit(b: u8) -> (r: Option<u8>)
    ensures
        r == hex_value(b),
        r matches Some(v) ==> v < 16,
{
    if 48 <= b && b <= 57 {
        Some(b - 48)
    } else if 97 <= b && b <= 102 {
        Some(b - 87)
    } else if 65 <= b && b <= 70 {
        Some(b - 55)
    } else {
        None
    }
}

fn hex_pair(high: u8, low: u8) -> (r: Option<u8>)
    ensures
        r == hex_byte(high, low),
{
    match (hex_digit(high), hex_digit(low)) {
        (Some(h), Some(l)) => Some(h * 16 + l),
        _ => None,
    }
}

fn letter(b: u8) -> (r: Option<u8>)
    ensures
        r == letter_escape(b),
{
    match b {
        34 => Some(34),
        92 => Some(92),
        47 => Some(47),
        98 => Some(8),
        102 => Some(12),
        110 => Some(10),
        114 => Some(13),
        116 => Some(9),
        _ => None,
    }
}

/// What the bytes from `i` on begin with when their escapes are resolved.
fn resolve_first(bytes: &Vec<u8>, i: usize) -> (r: (u8, usize))
    requires
        i < bytes@.len(),
    ensures
        r.0 == first_resolved(bytes@.skip(i as int)).0,
        r.1 == first_resolved(bytes@.skip(i as int)).1,
        1 <= r.1 <= bytes@.len() - i,
{
    let left: usize = bytes.len() - i;
    if bytes[i] == 92 && left >= 6 && bytes[i + 1] == 117 {
        if let (Some(high), Some(low)) = (
            hex_pair(bytes[i + 2], bytes[i + 3]),
            hex_pair(bytes[i + 4], bytes[i + 5]),
        ) {
            return if high == 0 && low < 128 {
                (low, 6)
            } else {
                (128, 6)
            };
        }
    }
    if bytes[i] == 92 && left >= 2 {
        if let Some(b) = letter(bytes[i + 1]) {
            return (b, 2);
        }
    }
    (bytes[i], 1)
}

fn resolve_escapes(bytes: &Vec<u8>) -> (r: Vec<u8>)
    ensures
        r@ == resolved_escapes(bytes@),
{
    let mut r: Vec<u8> = Vec::new();
    let mut i: usize = 0;
    assert(bytes@.skip(0) == bytes@);
    while i < bytes.len()
        invariant
            i <= bytes@.len(),
            r@ + resolved_escapes(bytes@.skip(i as int)) == resolved_escapes(bytes@),
        decreases bytes@.len() - i,
    {
        let ghost before = r@;
        let (b, n) = resolve_first(bytes, i);
        r.push(b);
        proof {
            let rest = bytes@.skip(i as int);
            assert(rest.skip(n as int) == bytes@.skip(i + n));
            assert(before.push(b) + resolved_escapes(rest.skip(n as int)) == before + (seq![b]
                + resolved_escapes(rest.skip(n as int))));
        }
        i += n;
    }
    assert(r@ + Seq::<u8>::empty() == r@);
    r
}

fn finds_name(bytes: &Vec<u8>) -> (r: bool)
    ensures
        r == has_name(bytes@),
{
    let name = chars_of("$serde_json::private::RawValue");
    proof {
        reveal_strlit("$serde_json::private::RawValue");
    }
    let mut i: usize = 0;
    while i < bytes.len()
        invariant
            i <= bytes@.len(),
            name@ == "$serde_json::private::RawValue"@,
            0 < name@.len(),
            forall|j: int| 0 <= j < name@.len() ==> (#[trigger] name@[j] as u32) < 128,
            forall|j: int| 0 <= j < i ==> !#[trigger] name_at(bytes@, j),
        decreases bytes@.len() - i,
    {
        let mut n: usize = 0;
        while n < name.len() && n < bytes.len() - i && bytes[i + n] == name[n] as u8
            invariant
                i < bytes@.len(),
                n <= name@.len(),
                n <= bytes@.len() - i,
                name@ == "$serde_json::private::RawValue"@,
                forall|j: int| 0 <= j < n ==> bytes@[i + j] == #[trigger] document_name()[j],
            decreases name@.len() - n,
        {
            n += 1;
        }
        proof {
            let rest = bytes@.skip(i as int);
            if n == name@.len() {
                assert(rest.take(document_name().len() as int) == document_name());
                assert(name_at(bytes@, i as int));
            } else if name_at(bytes@, i as int) {
                assert(rest.take(document_name().len() as int)[n as int] == rest[n as int]);
                assert(rest[n as int] == bytes@[i + n]);
            }
        }
        if n == name.len() {
            return true;
        }
        i += 1;
    }
    proof {
        assert forall|j: int| 0 <= j <= bytes@.len() implies !#[trigger] name_at(bytes@, j) by {
            if j == bytes@.len() {
                assert(bytes@.skip(j).len() == 0);
            }
        }
    }
    false
}

fn count_openings(bytes: &[u8]) -> (n: usize)
    ensures
        n == openings(bytes@),
{
    let mut n: usize = 0;
    let mut i: usize = 0;
    while i < bytes.len()
        invariant
            n <= i <= bytes@.len(),
            n == openings(bytes@.take(i as int)),
        decreases bytes@.len() - i,
    {
        let b = bytes[i];
        assert(bytes@.take(i + 1).drop_last() == bytes@.take(i as int));
        if b == 91 || b == 123 || b == 92 {
            n += 1;
        }
        i += 1;
    }
    assert(bytes@.take(i as int) == bytes@);
    n
}

fn check_documents(bytes: &[u8]) -> (r: bool)
    ensures
        r == has_few_documents(bytes@, READABLE_DOCUMENTS as nat),
{
    let mut text = vstd::slice::slice_to_vec(bytes);
    let mut left: u8 = READABLE_DOCUMENTS;
    while left > 0
        invariant
            has_few_documents(bytes@, READABLE_DOCUMENTS as nat) == has_few_documents(
                text@,
                left as nat,
            ),
        decreases left,
    {
        text = resolve_escapes(&text);
        if !finds_name(&text) {
            return true;
        }
        left -= 1;
    }
    false
}

/// Whether the JSON reader recurses at most `READABLE_LEVELS` levels on the bytes. Nearly all bytes
/// are of that kind: all that do not hold the name, and all that do but pile up few documents.
pub fn is_shallow(bytes: &[u8]) -> (r: bool)
    ensures
        r == shallow(bytes@),
{
    check_documents(bytes) || count_openings(bytes) <= READABLE_LEVELS as usize
}

// ---- laws --------------------------------------------------------------------

/// Bytes that do not hold the name when their escapes are resolved are shallow, whatever else they
/// hold.
pub proof fn law_nameless_bytes_are_shallow(bytes: Seq<u8>)
    requires
        !has_name(resolved_escapes(bytes)),
    ensures
        shallow(bytes),
{
}

/// Bytes with few places where a level can begin are shallow; short bytes are.
pub proof fn law_short_bytes_are_shallow(bytes: Seq<u8>)
    requires
        bytes.len() <= READABLE_LEVELS,
    ensures
        shallow(bytes),
{
    lemma_openings_are_bytes(bytes);
}

proof fn lemma_openings_are_bytes(bytes: Seq<u8>)
    ensures
        openings(bytes) <= bytes.len(),
    decreases bytes.len(),
{
    if bytes.len() > 0 {
        lemma_openings_are_bytes(bytes.drop_last());
    }
}

}
