//! Properties of the classification that hold across inputs, class lists and
//! calls.

use vstd::prelude::*;
use vstd::string::StringSliceAdditionalSpecFns;

use crate::ascii::{contains_ignoring_ascii_case, lower_byte, lower_bytes, occurs_at};
use crate::divergence::{
    in_class, in_some_class, is_first_class_of, marker_bytes, KnownDivergence,
    KNOWN_SQLI_DIVERGENCES, KNOWN_XSS_DIVERGENCES,
};

verus! {

/// Matching ignores ASCII case: two inputs that differ only in the case of
/// ASCII letters fall in the same classes, have the same first class, and
/// the same answer to whether they fall in any.
pub proof fn law_ascii_case_is_ignored(a: Seq<u8>, b: Seq<u8>, classes: Seq<KnownDivergence>)
    requires
        lower_bytes(a) == lower_bytes(b),
    ensures
        forall|i: int|
            0 <= i < classes.len() ==> (in_class(a, classes[i]) <==> in_class(b, classes[i])),
        forall|i: int| is_first_class_of(a, classes, i) <==> is_first_class_of(b, classes, i),
        in_some_class(a, classes) == in_some_class(b, classes),
{
}

/// Every instance of a listed class is recognised: an input in which the
/// marker of one of the classes occurs, ASCII case aside, is a known
/// divergence, whether or not it is UTF-8.
pub proof fn law_instance_of_class_is_known(
    input: Seq<u8>,
    classes: Seq<KnownDivergence>,
    i: int,
)
    requires
        0 <= i < classes.len(),
        contains_ignoring_ascii_case(input, marker_bytes(classes[i])),
    ensures
        in_some_class(input, classes),
{
    assert(in_class(input, classes[i]));
}

/// An empty list of classes excuses nothing; in particular the two lists of
/// this crate, which are empty, recognise no input at all.
pub proof fn law_no_classes_no_divergence(input: Seq<u8>)
    ensures
        !in_some_class(input, Seq::<KnownDivergence>::empty()),
        !in_some_class(input, KNOWN_SQLI_DIVERGENCES@),
        !in_some_class(input, KNOWN_XSS_DIVERGENCES@),
{
    assert(KNOWN_SQLI_DIVERGENCES@.len() == 0);
    assert(KNOWN_XSS_DIVERGENCES@.len() == 0);
}

/// Adding classes at the end of a list never takes an input out of the known
/// divergences, and never changes which class a text input is reported under
/// when it already fell in one.
pub proof fn law_adding_classes_keeps_known(
    input: Seq<u8>,
    classes: Seq<KnownDivergence>,
    more: Seq<KnownDivergence>,
)
    ensures
        in_some_class(input, classes) ==> in_some_class(input, classes + more),
        forall|i: int|
            is_first_class_of(input, classes, i) ==> is_first_class_of(input, classes + more, i),
{
    let all = classes + more;
    if in_some_class(input, classes) {
        let i = choose|i: int| 0 <= i < classes.len() && in_class(input, #[trigger] classes[i]);
        assert(all[i] == classes[i]);
    }
    assert forall|i: int| is_first_class_of(input, classes, i) implies is_first_class_of(
        input,
        all,
        i,
    ) by {
        assert(all[i] == classes[i]);
        assert forall|j: int| 0 <= j < i implies !in_class(input, #[trigger] all[j]) by {
            assert(all[j] == classes[j]);
        }
    }
}

/// At most one class is the first that an input falls in, so the class
/// `known_class` reports is fixed by the input and the list.
pub proof fn law_first_class_is_unique(
    input: Seq<u8>,
    classes: Seq<KnownDivergence>,
    i: int,
    j: int,
)
    requires
        is_first_class_of(input, classes, i),
        is_first_class_of(input, classes, j),
    ensures
        i == j,
{
    if i < j {
        assert(!in_class(input, classes[i]));
    } else if j < i {
        assert(!in_class(input, classes[j]));
    }
}

/// A class whose marker is empty takes in every input, UTF-8 or not.
pub proof fn law_empty_marker(input: Seq<u8>, c: KnownDivergence)
    requires
        marker_bytes(c).len() == 0,
    ensures
        in_class(input, c),
{
    let e = lower_bytes(marker_bytes(c));
    assert(lower_bytes(input).subrange(0, 0) =~= e);
    assert(occurs_at(lower_bytes(input), e, 0));
}

/// Folding changes exactly the ASCII upper-case letters `A` to `Z`, each to
/// its lower-case form 32 places on; every other byte stays as it is.
pub proof fn law_fold_is_ascii_lowercase(b: u8)
    ensures
        65 <= b <= 90 ==> lower_byte(b) == b + 32,
        !(65 <= b <= 90) ==> lower_byte(b) == b,
{
}

/// Folding a byte sequence folds each byte in place and keeps the length.
pub proof fn law_fold_is_bytewise(s: Seq<u8>)
    ensures
        lower_bytes(s).len() == s.len(),
        forall|k: int| 0 <= k < s.len() ==> lower_bytes(s)[k] == lower_byte(#[trigger] s[k]),
{
}

/// `needle` stands at offset `i` of `hay` exactly when it fits there and
/// every one of its bytes, the first and the last included, equals the byte
/// of `hay` it lies over.
pub proof fn law_occurrence_is_every_byte(hay: Seq<u8>, needle: Seq<u8>, i: int)
    ensures
        occurs_at(hay, needle, i) <==> {
            &&& 0 <= i
            &&& i + needle.len() <= hay.len()
            &&& forall|k: int| 0 <= k < needle.len() ==> hay[i + k] == #[trigger] needle[k]
        },
{
    if 0 <= i && i + needle.len() <= hay.len() && (forall|k: int|
        0 <= k < needle.len() ==> hay[i + k] == #[trigger] needle[k]) {
        assert(hay.subrange(i, i + needle.len()) =~= needle);
    }
    if occurs_at(hay, needle, i) {
        assert forall|k: int| 0 <= k < needle.len() implies hay[i + k] == #[trigger] needle[k] by {
            assert(hay.subrange(i, i + needle.len())[k] == hay[i + k]);
        }
    }
}

proof fn lemma_folded_match_is_occurrence(hay: Seq<u8>, needle: Seq<u8>, i: int)
    ensures
        ({
            &&& 0 <= i
            &&& i + needle.len() <= hay.len()
            &&& forall|k: int|
                0 <= k < needle.len() ==> lower_byte(hay[i + k]) == lower_byte(#[trigger] needle[k])
        }) <==> occurs_at(lower_bytes(hay), lower_bytes(needle), i),
{
    law_fold_is_bytewise(hay);
    law_fold_is_bytewise(needle);
    law_occurrence_is_every_byte(lower_bytes(hay), lower_bytes(needle), i);
    if 0 <= i && i + needle.len() <= hay.len() && (forall|k: int|
        0 <= k < needle.len() ==> lower_byte(hay[i + k]) == lower_byte(#[trigger] needle[k])) {
        assert forall|k: int| 0 <= k < needle.len() implies lower_bytes(hay)[i + k]
            == #[trigger] lower_bytes(needle)[k] by {
            assert(lower_byte(hay[i + k]) == lower_byte(needle[k]));
        }
    }
    if occurs_at(lower_bytes(hay), lower_bytes(needle), i) {
        assert forall|k: int| 0 <= k < needle.len() implies lower_byte(hay[i + k]) == lower_byte(
            #[trigger] needle[k],
        ) by {
            assert(lower_bytes(hay)[i + k] == lower_bytes(needle)[k]);
        }
    }
}

/// A case-insensitive occurrence at any offset, however far into `hay`, is
/// found.
pub proof fn law_found_at_any_offset(hay: Seq<u8>, needle: Seq<u8>, i: int)
    requires
        0 <= i,
        i + needle.len() <= hay.len(),
        forall|k: int|
            0 <= k < needle.len() ==> lower_byte(hay[i + k]) == lower_byte(#[trigger] needle[k]),
    ensures
        contains_ignoring_ascii_case(hay, needle),
{
    lemma_folded_match_is_occurrence(hay, needle, i);
}

/// Whatever is found is a real case-insensitive occurrence: there is an
/// offset at which every byte of the needle matches `hay`, ASCII case aside.
pub proof fn law_found_only_where_it_occurs(hay: Seq<u8>, needle: Seq<u8>) -> (i: int)
    requires
        contains_ignoring_ascii_case(hay, needle),
    ensures
        0 <= i,
        i + needle.len() <= hay.len(),
        forall|k: int|
            0 <= k < needle.len() ==> lower_byte(hay[i + k]) == lower_byte(#[trigger] needle[k]),
{
    let i = choose|i: int| occurs_at(lower_bytes(hay), lower_bytes(needle), i);
    lemma_folded_match_is_occurrence(hay, needle, i);
    i
}

/// An input falls in a class exactly when the class's marker occurs in the
/// input, ASCII case aside: the marker inside the input, not the other way
/// round. The offset returned is where it occurs.
pub proof fn law_class_means_marker_in_input(input: Seq<u8>, c: KnownDivergence) -> (i: int)
    requires
        in_class(input, c),
    ensures
        0 <= i,
        i + c.marker.spec_bytes().len() <= input.len(),
        forall|k: int|
            0 <= k < c.marker.spec_bytes().len() ==> lower_byte(input[i + k]) == lower_byte(#[trigger] c.marker.spec_bytes()[k]),
{
    law_found_only_where_it_occurs(input, c.marker.spec_bytes())
}

/// Conversely, a class's marker found in the input, ASCII case aside, at any
/// offset, puts the input in the class.
pub proof fn law_marker_in_input_means_class(input: Seq<u8>, c: KnownDivergence, i: int)
    requires
        0 <= i,
        i + c.marker.spec_bytes().len() <= input.len(),
        forall|k: int|
            0 <= k < c.marker.spec_bytes().len() ==> lower_byte(input[i + k]) == lower_byte(#[trigger] c.marker.spec_bytes()[k]),
    ensures
        in_class(input, c),
{
    law_found_at_any_offset(input, c.marker.spec_bytes(), i);
}

} // verus!
