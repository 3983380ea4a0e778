//! The known divergence classes and the questions asked of them: which class
//! a text input falls in, and whether a raw byte input falls in any.

use vstd::prelude::*;
use vstd::string::StringSliceAdditionalSpecFns;
use vstd::utf8::valid_utf8;

use crate::ascii::{contains_ignore_ascii_case, contains_ignoring_ascii_case};

verus! {

/// A class of input known to diverge, and why.
pub struct KnownDivergence {
    /// Substring, matched case-insensitively, that identifies the class.
    pub marker: &'static str,
    /// Why these diverge.
    pub reason: &'static str,
}

/// No SQLi divergences from the C library remain over the corpus: word merging
/// folds multi-word keywords by table presence, and the three-token whitelist
/// compares `INTO` case-insensitively as C does. New classes the fuzzer finds
/// are added here.
pub const KNOWN_SQLI_DIVERGENCES: [KnownDivergence; 0] = [];

/// No XSS divergences from the C library remain over the corpus: the event
/// handler check compares only the blacklisted event name's length, as C does,
/// so `onerror%09` matches on `error`. New classes the fuzzer finds are added
/// here.
pub const KNOWN_XSS_DIVERGENCES: [KnownDivergence; 0] = [];

/// The UTF-8 bytes of a class's marker.
pub open spec fn marker_bytes(c: KnownDivergence) -> Seq<u8> {
    c.marker.spec_bytes()
}

/// An input, given by its bytes (the UTF-8 bytes of a text input), belongs
/// to class `c`: the marker occurs in it, ASCII case aside. An empty marker
/// occurs in every input.
pub open spec fn in_class(input: Seq<u8>, c: KnownDivergence) -> bool {
    contains_ignoring_ascii_case(input, marker_bytes(c))
}

/// Class `i` is the first of `classes` that the text belongs to.
pub open spec fn is_first_class_of(text: Seq<u8>, classes: Seq<KnownDivergence>, i: int) -> bool {
    &&& 0 <= i < classes.len()
    &&& in_class(text, classes[i])
    &&& forall|j: int| 0 <= j < i ==> !in_class(text, #[trigger] classes[j])
}

/// The input belongs to some class of `classes`.
pub open spec fn in_some_class(input: Seq<u8>, classes: Seq<KnownDivergence>) -> bool {
    exists|i: int| 0 <= i < classes.len() && in_class(input, #[trigger] classes[i])
}

/// Which known class a text input belongs to, if any: the first class, in
/// the order given, whose marker occurs in the input, ASCII case aside.
pub fn known_class<'a>(input: &str, classes: &'a [KnownDivergence]) -> (res: Option<
    &'a KnownDivergence,
>)
    ensures
        res is None <==> !in_some_class(input.spec_bytes(), classes@),
        res matches Some(c) ==> exists|i: int|
            is_first_class_of(input.spec_bytes(), classes@, i) && classes@[i] == *c,
{
    let text = input.as_bytes();
    let n = classes.len();
    let mut i: usize = 0;
    while i < n
        invariant
            n == classes@.len(),
            i <= n,
            text@ == input.spec_bytes(),
            forall|j: int| 0 <= j < i ==> !in_class(text@, #[trigger] classes@[j]),
        decreases n - i,
    {
        let c = &classes[i];
        if contains_ignore_ascii_case(text, c.marker.as_bytes()) {
            assert(is_first_class_of(text@, classes@, i as int));
            return Some(c);
        }
        i = i + 1;
    }
    None
}

/// `std::str::Utf8Error`, the error `std::str::from_utf8` gives back.
#[verifier::external_type_specification]
#[verifier::external_body]
pub struct ExUtf8Error(std::str::Utf8Error);

/// Calls `std::str::from_utf8`. Its documentation says that it succeeds
/// exactly when the bytes are valid UTF-8, and that the string it gives back
/// is those bytes; `valid_utf8` and `spec_bytes` are vstd's statement of the
/// two.
#[verifier::external_body]
fn str_from_utf8(bytes: &[u8]) -> (res: Result<&str, std::str::Utf8Error>)
    ensures
        res is Ok <==> valid_utf8(bytes@),
        res matches Ok(text) ==> text.spec_bytes() == bytes@,
{
    std::str::from_utf8(bytes)
}

/// Whether a raw byte input falls in any known class. Used by the fuzz
/// targets, which generate bytes rather than text. A UTF-8 input is asked as
/// text, through `known_class`; any other input is searched byte for byte for
/// each marker, ASCII case aside. Either way the answer is whether some
/// class's marker occurs in the input.
pub fn is_known_divergence(input: &[u8], classes: &[KnownDivergence]) -> (res: bool)
    ensures
        res == in_some_class(input@, classes@),
{
    match str_from_utf8(input) {
        Ok(text) => {
            let found = known_class(text, classes);
            found.is_some()
        },
        Err(_) => {
            let n = classes.len();
            let mut i: usize = 0;
            while i < n
                invariant
                    n == classes@.len(),
                    i <= n,
                    forall|j: int| 0 <= j < i ==> !in_class(input@, #[trigger] classes@[j]),
                decreases n - i,
            {
                let marker = classes[i].marker.as_bytes();
                if contains_ignore_ascii_case(input, marker) {
                    assert(in_class(input@, classes@[i as int]));
                    return true;
                }
                i = i + 1;
            }
            false
        },
    }
}

} // verus!
