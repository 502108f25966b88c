//! Version strings: two or three components separated by dots, each made of
//! ASCII letters, digits and hyphens. The first component is the major
//! component; it counts as a number where it is one, and as 0 where it is not.

use crate::text::{
    chars_accepted, chars_of, count_of, decimal_value, inner_pieces_filled, is_decimal,
    lemma_split_chars, lemma_split_count, lemma_split_first, lemma_split_inner, lemma_split_last,
    lemma_split_nonempty, never_doubled, parse_number, parsed_number, pieces_accepted, pieces_of,
    split, split_chars,
};
use vstd::prelude::*;

verus! {

/// The character that separates the components of a version.
pub const SEPARATOR: char = '.';

/// `c` may stand in a component: an ASCII letter, a digit or a hyphen.
pub open spec fn is_version_char(c: char) -> bool {
    ||| ('0' <= c && c <= '9')
    ||| ('a' <= c && c <= 'z')
    ||| ('A' <= c && c <= 'Z')
    ||| c == '-'
}

/// Every character of `piece` may stand in a component.
pub open spec fn all_version_chars(piece: Seq<char>) -> bool {
    forall|i: int| 0 <= i < piece.len() ==> is_version_char(#[trigger] piece[i])
}

/// `piece` is a component: not empty, and made of the accepted characters.
pub open spec fn is_component(piece: Seq<char>) -> bool {
    piece.len() > 0 && all_version_chars(piece)
}

/// `pieces` are the components of a version: two or three of them.
pub open spec fn are_components(pieces: Seq<Seq<char>>) -> bool {
    &&& 2 <= pieces.len() <= 3
    &&& forall|i: int| 0 <= i < pieces.len() ==> is_component(#[trigger] pieces[i])
}

/// `s` is a version string.
pub open spec fn is_valid_version(s: Seq<char>) -> bool {
    are_components(split(s, SEPARATOR))
}

/// Why a string is no version.
#[derive(Debug, Clone, Copy, PartialEq, Eq, Structural)]
pub enum ValidationFailure {
    /// There are fewer than two or more than three components.
    ComponentCount,
    /// A component is empty.
    EmptyComponent,
    /// A component holds a character that is no ASCII letter, digit or hyphen.
    InvalidCharacter,
}

/// What is wrong with one piece, if anything.
pub open spec fn piece_defect(piece: Seq<char>) -> Option<ValidationFailure> {
    if piece.len() == 0 {
        Some(ValidationFailure::EmptyComponent)
    } else if !all_version_chars(piece) {
        Some(ValidationFailure::InvalidCharacter)
    } else {
        None
    }
}

/// What is wrong with the first piece that is no component, if there is one.
pub open spec fn first_defect(pieces: Seq<Seq<char>>) -> Option<ValidationFailure>
    decreases pieces.len(),
{
    if pieces.len() == 0 {
        None
    } else {
        match first_defect(pieces.drop_last()) {
            Some(defect) => Some(defect),
            None => piece_defect(pieces.last()),
        }
    }
}

/// The components of `s` where it is a version string, and else the reason
/// why it is none. The number of components is judged first, then the
/// components from left to right.
pub open spec fn validated(s: Seq<char>) -> Result<Seq<Seq<char>>, ValidationFailure> {
    let pieces = split(s, SEPARATOR);
    if pieces.len() < 2 || pieces.len() > 3 {
        Err(ValidationFailure::ComponentCount)
    } else {
        match first_defect(pieces) {
            Some(defect) => Err(defect),
            None => Ok(pieces),
        }
    }
}

/// The number that a major component counts as: its value where it is a
/// 32-bit decimal number, and 0 where it is not.
pub open spec fn major_value(component: Seq<char>) -> nat {
    match parsed_number(component) {
        Some(number) => number as nat,
        None => 0,
    }
}

/// The number that the text before the first dot of `s` counts as.
pub open spec fn major_of(s: Seq<char>) -> nat {
    major_value(split(s, SEPARATOR)[0])
}

/// Going from `current` to `target` raises the major number. Staying or going
/// down is no jump.
pub open spec fn is_major_jump(current: Seq<char>, target: Seq<char>) -> bool {
    major_of(target) > major_of(current)
}

/// Pieces are free of defects exactly when each of them is a component.
pub proof fn lemma_first_defect_none(pieces: Seq<Seq<char>>)
    ensures
        first_defect(pieces) is None <==> forall|i: int|
            0 <= i < pieces.len() ==> is_component(#[trigger] pieces[i]),
    decreases pieces.len(),
{
    if pieces.len() > 0 {
        let front = pieces.drop_last();
        lemma_first_defect_none(front);
        assert(forall|i: int| 0 <= i < front.len() ==> front[i] == pieces[i]);
        if first_defect(pieces) is None {
            assert forall|i: int| 0 <= i < pieces.len() implies is_component(
                #[trigger] pieces[i],
            ) by {
                if i < front.len() {
                    assert(is_component(front[i]));
                }
            }
        } else {
            if first_defect(front) is None {
                assert(!is_component(pieces[pieces.len() - 1]));
            } else {
                let i = choose|i: int| 0 <= i < front.len() && !is_component(#[trigger] front[i]);
                assert(!is_component(pieces[i]));
            }
        }
    }
}

/// A defect among the first `k` pieces is the defect of the whole.
pub proof fn lemma_first_defect_persists(pieces: Seq<Seq<char>>, k: int)
    requires
        0 <= k <= pieces.len(),
        first_defect(pieces.take(k)) is Some,
    ensures
        first_defect(pieces) == first_defect(pieces.take(k)),
    decreases pieces.len(),
{
    if k == pieces.len() {
        assert(pieces.take(k) =~= pieces);
    } else {
        assert(pieces.drop_last().take(k) =~= pieces.take(k));
        lemma_first_defect_persists(pieces.drop_last(), k);
    }
}

/// A string is a version string exactly when validation gives its components.
pub proof fn lemma_validated_ok(s: Seq<char>)
    ensures
        validated(s) is Ok <==> is_valid_version(s),
        validated(s) is Ok ==> validated(s) == Ok::<Seq<Seq<char>>, ValidationFailure>(
            split(s, SEPARATOR),
        ),
{
    lemma_first_defect_none(split(s, SEPARATOR));
}

/// A string is a version string exactly when it holds one or two dots, none
/// of them at either end and no two side by side, and besides the dots only
/// ASCII letters, digits and hyphens. So a string with no dot or with more
/// than two, one with an empty component, and one with any other character
/// all fail validation.
pub proof fn lemma_version_string_shape(s: Seq<char>)
    ensures
        is_valid_version(s) <==> {
            &&& 1 <= count_of(s, SEPARATOR) <= 2
            &&& s.len() > 0
            &&& s.first() != SEPARATOR
            &&& s.last() != SEPARATOR
            &&& never_doubled(s, SEPARATOR)
            &&& forall|i: int|
                0 <= i < s.len() ==> #[trigger] s[i] == SEPARATOR || is_version_char(s[i])
        },
        validated(s) is Err <==> !is_valid_version(s),
{
    let pieces = split(s, SEPARATOR);
    let accepted = |c: char| is_version_char(c);
    let strict = |c: char| c != SEPARATOR && accepted(c);
    lemma_split_count(s, SEPARATOR);
    lemma_split_last(s, SEPARATOR);
    lemma_split_inner(s, SEPARATOR);
    lemma_split_chars(s, SEPARATOR, accepted);
    lemma_validated_ok(s);
    let filled = forall|j: int| 0 <= j < pieces.len() ==> (#[trigger] pieces[j]).len() > 0;
    let clean = forall|j: int| 0 <= j < pieces.len() ==> all_version_chars(#[trigger] pieces[j]);
    assert(filled <==> inner_pieces_filled(pieces) && pieces.last().len() > 0) by {
        if inner_pieces_filled(pieces) && pieces.last().len() > 0 {
            assert forall|j: int| 0 <= j < pieces.len() implies (#[trigger] pieces[j]).len()
                > 0 by {
                if j < pieces.len() - 1 {
                } else {
                    assert(pieces[j] == pieces.last());
                }
            }
        }
        if filled {
            assert(pieces[pieces.len() - 1].len() > 0);
        }
    }
    assert(clean <==> pieces_accepted(pieces, strict)) by {
        if clean {
            assert forall|j: int, k: int|
                0 <= j < pieces.len() && 0 <= k < pieces[j].len() implies strict(
                #[trigger] pieces[j][k],
            ) by {
                assert(all_version_chars(pieces[j]));
                assert(is_version_char(pieces[j][k]));
            }
        }
        if pieces_accepted(pieces, strict) {
            assert forall|j: int| 0 <= j < pieces.len() implies all_version_chars(
                #[trigger] pieces[j],
            ) by {
                assert forall|k: int| 0 <= k < pieces[j].len() implies is_version_char(
                    #[trigger] pieces[j][k],
                ) by {
                    assert(strict(pieces[j][k]));
                }
            }
        }
    }
    assert(chars_accepted(s, SEPARATOR, accepted) <==> forall|i: int|
        0 <= i < s.len() ==> #[trigger] s[i] == SEPARATOR || is_version_char(s[i]));
    assert((filled && clean) <==> forall|j: int|
        0 <= j < pieces.len() ==> is_component(#[trigger] pieces[j])) by {
        if filled && clean {
            assert forall|j: int| 0 <= j < pieces.len() implies is_component(
                #[trigger] pieces[j],
            ) by {
                assert(pieces[j].len() > 0);
                assert(all_version_chars(pieces[j]));
            }
        }
        if forall|j: int| 0 <= j < pieces.len() ==> is_component(#[trigger] pieces[j]) {
            assert forall|j: int| 0 <= j < pieces.len() implies (#[trigger] pieces[j]).len()
                > 0 by {
                assert(is_component(pieces[j]));
            }
            assert forall|j: int| 0 <= j < pieces.len() implies all_version_chars(
                #[trigger] pieces[j],
            ) by {
                assert(is_component(pieces[j]));
            }
        }
    }
}

/// The major number of a string is that of the text before its first dot, or
/// of the whole string where it holds no dot.
pub proof fn lemma_major_of_prefix(s: Seq<char>, first: int)
    requires
        0 <= first <= s.len(),
        forall|i: int| 0 <= i < first ==> s[i] != SEPARATOR,
        first < s.len() ==> s[first] == SEPARATOR,
    ensures
        major_of(s) == major_value(s.take(first)),
{
    lemma_split_first(s, SEPARATOR, first);
}

/// The number that a component of a version counts as. A component holds no
/// plus sign, so it is its decimal value where it is made of digits and fits
/// 32 bits, and 0 otherwise.
pub open spec fn component_number(component: Seq<char>) -> nat {
    if is_decimal(component) && decimal_value(component) <= u32::MAX {
        decimal_value(component)
    } else {
        0
    }
}

/// Between two version strings there is a major jump exactly when the number
/// of the target's first component is greater than that of the current
/// version's first component.
pub proof fn lemma_major_jump_of_versions(current: Seq<char>, target: Seq<char>)
    requires
        is_valid_version(current),
        is_valid_version(target),
    ensures
        is_major_jump(current, target) <==> component_number(split(target, SEPARATOR)[0])
            > component_number(split(current, SEPARATOR)[0]),
{
    let from = split(current, SEPARATOR)[0];
    let to = split(target, SEPARATOR)[0];
    assert(is_component(from) && is_component(to));
    assert(is_version_char(from[0]) && is_version_char(to[0]));
}

/// A jump goes one way only: no version jumps to itself, and where one jumps
/// to another, going back is no jump.
pub proof fn lemma_major_jump_is_strict(current: Seq<char>, target: Seq<char>)
    ensures
        !is_major_jump(current, current),
        is_major_jump(current, target) ==> !is_major_jump(target, current),
{
}

/// Whether `c` may stand in a component.
pub fn is_version_character(c: char) -> (accepted: bool)
    ensures
        accepted == is_version_char(c),
{
    ('0' <= c && c <= '9') || ('a' <= c && c <= 'z') || ('A' <= c && c <= 'Z') || c == '-'
}

/// What is wrong with one piece, if anything.
pub fn check_component(piece: &Vec<char>) -> (defect: Option<ValidationFailure>)
    ensures
        defect == piece_defect(piece@),
{
    if piece.len() == 0 {
        return Some(ValidationFailure::EmptyComponent);
    }
    let mut i: usize = 0;
    while i < piece.len()
        invariant
            i <= piece.len(),
            forall|k: int| 0 <= k < i ==> is_version_char(#[trigger] piece@[k]),
        decreases piece.len() - i,
    {
        if !is_version_character(piece[i]) {
            return Some(ValidationFailure::InvalidCharacter);
        }
        i += 1;
    }
    None
}

/// The number that the text before the first dot of `s` counts as.
pub fn leading_number(s: &str) -> (major: u32)
    ensures
        major == major_of(s@),
{
    let chars = chars_of(s);
    let pieces = split_chars(&chars, SEPARATOR);
    proof {
        lemma_split_nonempty(s@, SEPARATOR);
    }
    assert(pieces_of(pieces@)[0] == pieces@[0]@);
    match parse_number(&pieces[0]) {
        Some(number) => number,
        None => 0,
    }
}

/// A version string that passed validation, cut into its components.
#[derive(Debug)]
pub struct Version {
    components: Vec<Vec<char>>,
}

impl View for Version {
    type V = Seq<Seq<char>>;

    closed spec fn view(&self) -> Seq<Seq<char>> {
        pieces_of(self.components@)
    }
}

impl Version {
    #[verifier::type_invariant]
    spec fn well_formed(self) -> bool {
        are_components(pieces_of(self.components@))
    }

    /// Reads `s` as a version. It succeeds on the version strings and on no
    /// others, and says of any other string what is wrong with it.
    pub fn parse_and_validate(s: &str) -> (outcome: Result<Version, ValidationFailure>)
        ensures
            match outcome {
                Ok(version) => validated(s@) == Ok::<Seq<Seq<char>>, ValidationFailure>(version@),
                Err(failure) => validated(s@) == Err::<Seq<Seq<char>>, ValidationFailure>(failure),
            },
    {
        let chars = chars_of(s);
        let pieces = split_chars(&chars, SEPARATOR);
        if pieces.len() < 2 || pieces.len() > 3 {
            return Err(ValidationFailure::ComponentCount);
        }
        let ghost all = pieces_of(pieces@);
        let mut i: usize = 0;
        assert(all.take(0) =~= Seq::<Seq<char>>::empty());
        while i < pieces.len()
            invariant
                i <= pieces.len(),
                all == pieces_of(pieces@),
                all == split(s@, SEPARATOR),
                2 <= all.len() <= 3,
                first_defect(all.take(i as int)) is None,
            decreases pieces.len() - i,
        {
            assert(all.take(i + 1).drop_last() =~= all.take(i as int));
            assert(all.take(i + 1).last() == pieces@[i as int]@);
            match check_component(&pieces[i]) {
                Some(defect) => {
                    proof {
                        lemma_first_defect_persists(all, i + 1);
                    }
                    return Err(defect);
                },
                None => {},
            }
            i += 1;
        }
        assert(all.take(i as int) =~= all);
        proof {
            lemma_first_defect_none(all);
        }
        Ok(Version { components: pieces })
    }

    /// The components, from the major one on: two or three, none empty.
    pub fn components(&self) -> (pieces: &Vec<Vec<char>>)
        ensures
            pieces_of(pieces@) == self@,
            are_components(self@),
    {
        proof {
            use_type_invariant(self);
        }
        &self.components
    }

    /// The number that the major component counts as.
    pub fn major(&self) -> (major: u32)
        ensures
            major == major_value(self@[0]),
    {
        proof {
            use_type_invariant(self);
        }
        assert(pieces_of(self.components@)[0] == self.components@[0]@);
        match parse_number(&self.components[0]) {
            Some(number) => number,
            None => 0,
        }
    }

    /// Whether going from this version to `target` raises the major number.
    pub fn is_major_jump(&self, target: &Version) -> (jump: bool)
        ensures
            jump == (major_value(target@[0]) > major_value(self@[0])),
    {
        target.major() > self.major()
    }
}

} // verus!
