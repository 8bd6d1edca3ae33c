//! Derivation paths: which child to take at every level below the master key.

use crate::error::KeyError;
use crate::primitives::parse_derivation_path;
use vstd::prelude::*;

verus! {

/// Child numbers from here on are hardened.
pub const HARDENED_BIT: u32 = 0x8000_0000;

/// The parts of a text between its `/`: one more than there are `/` in it.
pub open spec fn split_parts(text: Seq<char>) -> Seq<Seq<char>>
    decreases text.len(),
{
    if text.len() == 0 {
        seq![Seq::<char>::empty()]
    } else {
        let rest = split_parts(text.drop_first());
        if text[0] == '/' {
            seq![Seq::<char>::empty()] + rest
        } else {
            rest.update(0, seq![text[0]] + rest[0])
        }
    }
}

/// Whether a character is a decimal digit.
pub open spec fn is_digit(c: char) -> bool {
    '0' <= c <= '9'
}

/// The number that decimal digits stand for; `None` where there is no digit or
/// a character that is none.
pub open spec fn decimal(digits: Seq<char>) -> Option<nat>
    decreases digits.len(),
{
    if digits.len() == 0 || !is_digit(digits.last()) {
        None
    } else {
        let unit = (digits.last() as nat - 0x30) as nat;
        if digits.len() == 1 {
            Some(unit)
        } else {
            match decimal(digits.drop_last()) {
                Some(tens) => Some(10 * tens + unit),
                None => None,
            }
        }
    }
}

/// The number that a text stands for as a `u32`: decimal digits, with or
/// without a `+` before them, that do not exceed the type.
pub open spec fn parsed_u32(text: Seq<char>) -> Option<u32> {
    let digits = if text.len() > 0 && text[0] == '+' {
        text.drop_first()
    } else {
        text
    };
    match decimal(digits) {
        Some(value) => if value <= u32::MAX {
            Some(value as u32)
        } else {
            None
        },
        None => None,
    }
}

/// The component that one part of a path stands for: its index, below
/// [`HARDENED_BIT`], and whether `'` or `h` marks it as hardened.
pub open spec fn parsed_component(part: Seq<char>) -> Option<(u32, bool)> {
    let hardened = part.len() > 0 && (part.last() == '\'' || part.last() == 'h');
    let number = if hardened {
        part.drop_last()
    } else {
        part
    };
    match parsed_u32(number) {
        Some(index) => if index < HARDENED_BIT {
            Some((index, hardened))
        } else {
            None
        },
        None => None,
    }
}

/// The components of a path given as text: the text is split at every `/`,
/// the first part is `m`, and every other part is a component. `None` where
/// the first part is another, or a part is no component.
pub open spec fn path_components(path: Seq<char>) -> Option<Seq<(u32, bool)>> {
    let parts = split_parts(path);
    if !(parts[0].len() == 1 && parts[0][0] == 'm') {
        None
    } else if forall|i: int| 1 <= i < parts.len() ==> (#[trigger] parsed_component(parts[i])) is Some {
        Some(Seq::new((parts.len() - 1) as nat, |i: int| parsed_component(parts[i + 1]).unwrap()))
    } else {
        None
    }
}

/// The number of the child with `index` among the hardened or among the normal
/// children.
pub open spec fn child_number(index: u32, hardened: bool) -> u32 {
    if hardened {
        (index + HARDENED_BIT) as u32
    } else {
        index
    }
}

/// The child numbers of a list of components; `None` where an index does not
/// fit below [`HARDENED_BIT`].
pub open spec fn numbers_of(components: Seq<(u32, bool)>) -> Option<Seq<u32>> {
    if forall|i: int| 0 <= i < components.len() ==> (#[trigger] components[i]).0 < HARDENED_BIT {
        Some(
            Seq::new(
                components.len(),
                |i: int| child_number(components[i].0, components[i].1),
            ),
        )
    } else {
        None
    }
}

/// The child numbers that the text of a path stands for; `None` where the text
/// is no path.
pub open spec fn parsed_path(text: Seq<char>) -> Option<Seq<u32>> {
    match path_components(text) {
        Some(components) => numbers_of(components),
        None => None,
    }
}

/// The text `m` is the empty path.
pub proof fn lemma_root_path()
    ensures
        parsed_path(seq!['m']) == Some(Seq::<u32>::empty()),
{
    let text = seq!['m'];
    assert(text.drop_first() =~= Seq::<char>::empty());
    assert(split_parts(text.drop_first()) =~= seq![Seq::<char>::empty()]);
    let rest = split_parts(text.drop_first());
    assert(split_parts(text) == rest.update(0, seq![text[0]] + rest[0]));
    assert(split_parts(text).len() == 1);
    assert(split_parts(text)[0] =~= seq!['m']);
    let components = path_components(text).unwrap();
    assert(components =~= Seq::<(u32, bool)>::empty());
    assert(numbers_of(components).unwrap() =~= Seq::<u32>::empty());
}

/// The empty text is no path: a path starts with `m`.
pub proof fn lemma_empty_text_refused()
    ensures
        parsed_path(Seq::<char>::empty()) is None,
{
    assert(split_parts(Seq::<char>::empty())[0].len() == 0);
}

/// Digits only stand for a number.
pub proof fn lemma_decimal_digits(digits: Seq<char>)
    ensures
        decimal(digits) is Some ==> forall|j: int| 0 <= j < digits.len() ==> is_digit(#[trigger] digits[j]),
    decreases digits.len(),
{
    if digits.len() > 1 && is_digit(digits.last()) {
        lemma_decimal_digits(digits.drop_last());
        if decimal(digits) is Some {
            assert forall|j: int| 0 <= j < digits.len() implies is_digit(#[trigger] digits[j]) by {
                if j < digits.len() - 1 {
                    assert(digits.drop_last()[j] == digits[j]);
                }
            }
        }
    }
}

/// A part that holds a character other than a digit, `+`, `'` or `h` is no
/// component: a component that is no number is refused.
pub proof fn lemma_non_numeric_component(part: Seq<char>, j: int)
    requires
        0 <= j < part.len(),
        !is_digit(part[j]),
        part[j] != '+',
        part[j] != '\'',
        part[j] != 'h',
    ensures
        parsed_component(part) is None,
{
    let hardened = part.len() > 0 && (part.last() == '\'' || part.last() == 'h');
    let number = if hardened {
        part.drop_last()
    } else {
        part
    };
    assert(j < number.len());
    assert(number[j] == part[j]);
    let digits = if number.len() > 0 && number[0] == '+' {
        number.drop_first()
    } else {
        number
    };
    lemma_decimal_digits(digits);
    if number.len() > 0 && number[0] == '+' {
        assert(j >= 1);
        assert(digits[j - 1] == number[j]);
    } else {
        assert(digits[j] == number[j]);
    }
}

/// A text with a part, after the first, that is no component is no path.
pub proof fn lemma_bad_component_refused(text: Seq<char>, i: int)
    requires
        1 <= i < split_parts(text).len(),
        parsed_component(split_parts(text)[i]) is None,
    ensures
        parsed_path(text) is None,
{
}

/// A derivation path: the child numbers to follow from the master key, in
/// order. The empty path stands for the master key itself.
#[derive(Debug)]
pub struct DerivationPath {
    numbers: Vec<u32>,
}

impl View for DerivationPath {
    type V = Seq<u32>;

    closed spec fn view(&self) -> Seq<u32> {
        self.numbers@
    }
}

impl DerivationPath {
    /// The empty path.
    pub fn master() -> (path: DerivationPath)
        ensures
            path@ == Seq::<u32>::empty(),
    {
        DerivationPath { numbers: Vec::new() }
    }

    /// Reads a path such as `m/44'/0'/0'/0/1`.
    ///
    /// The text is a path exactly where [`parsed_path`] has a value; any other
    /// text gives [`KeyError::InvalidPath`].
    pub fn parse(text: &str) -> (r: Result<DerivationPath, KeyError>)
        ensures
            match r {
                Ok(path) => parsed_path(text@) == Some(path@),
                Err(e) => e == KeyError::InvalidPath && parsed_path(text@) is None,
            },
    {
        match parse_derivation_path(text) {
            None => Err(KeyError::InvalidPath),
            Some(components) => match numbers_from(&components) {
                Some(numbers) => Ok(DerivationPath { numbers }),
                None => Err(KeyError::InvalidPath),
            },
        }
    }

    /// How many levels below the master key the path leads.
    pub fn len(&self) -> (n: usize)
        ensures
            n == self@.len(),
    {
        self.numbers.len()
    }

    /// The child number taken at `level`.
    pub fn number(&self, level: usize) -> (n: u32)
        requires
            level < self@.len(),
        ensures
            n == self@[level as int],
    {
        self.numbers[level]
    }

    /// Whether the child taken at `level` is a hardened one.
    pub fn is_hardened(&self, level: usize) -> (hardened: bool)
        requires
            level < self@.len(),
        ensures
            hardened == (self@[level as int] >= HARDENED_BIT),
    {
        self.numbers[level] >= HARDENED_BIT
    }

    /// The index of the child taken at `level` among the hardened or among the
    /// normal children.
    pub fn index(&self, level: usize) -> (index: u32)
        requires
            level < self@.len(),
        ensures
            index < HARDENED_BIT,
            self@[level as int] == child_number(index, self@[level as int] >= HARDENED_BIT),
    {
        let number = self.numbers[level];
        if number >= HARDENED_BIT {
            number - HARDENED_BIT
        } else {
            number
        }
    }
}

/// Turns parsed components into child numbers, as [`numbers_of`] says.
pub fn numbers_from(components: &Vec<(u32, bool)>) -> (r: Option<Vec<u32>>)
    ensures
        match r {
            Some(numbers) => numbers_of(components@) == Some(numbers@),
            None => numbers_of(components@) is None,
        },
{
    let mut numbers: Vec<u32> = Vec::new();
    let mut i: usize = 0;
    while i < components.len()
        invariant
            i <= components@.len(),
            numbers@.len() == i,
            forall|j: int| 0 <= j < i ==> (#[trigger] components@[j]).0 < HARDENED_BIT,
            forall|j: int|
                0 <= j < i ==> #[trigger] numbers@[j] == child_number(
                    components@[j].0,
                    components@[j].1,
                ),
        decreases components@.len() - i,
    {
        let (index, hardened) = components[i];
        if index >= HARDENED_BIT {
            return None;
        }
        if hardened {
            numbers.push(index + HARDENED_BIT);
        } else {
            numbers.push(index);
        }
        i = i + 1;
    }
    assert(numbers@ =~= numbers_of(components@).unwrap());
    Some(numbers)
}

} // verus!
