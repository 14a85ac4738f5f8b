//! Storage that foreign code writes into, and addresses in foreign memory.

use vstd::prelude::*;

use std::cell::UnsafeCell;

verus! {

/// std's `UnsafeCell`, opaque: foreign code writes its contents.
#[verifier::external_type_specification]
#[verifier::external_body]
#[verifier::reject_recursive_types(T)]
pub struct ExUnsafeCell<T: ?Sized>(UnsafeCell<T>);

/// Relies on `UnsafeCell::new`, which wraps a value.
pub assume_specification<T>[ UnsafeCell::<T>::new ](value: T) -> UnsafeCell<T>;

/// A cell that patched foreign code writes into, usually without
/// synchronisation.
///
/// The library only hands out the inner cell; reading or writing through its
/// pointer is left to the code that also gave the foreign code that pointer.
#[verifier::reject_recursive_types(T)]
pub struct GameCell<T> {
    cell: UnsafeCell<T>,
}

impl<T> GameCell<T> {
    /// A cell that starts out holding `item`.
    pub fn new(item: T) -> (r: Self) {
        GameCell { cell: UnsafeCell::new(item) }
    }

    /// The inner cell, whose pointer is handed to the foreign code.
    pub fn inner(&self) -> (r: &UnsafeCell<T>) {
        &self.cell
    }
}

/// Why a textual address was refused.
#[derive(PartialEq, Eq, Structural, Clone, Copy, Debug)]
pub enum AddressError {
    /// The text is shorter than its two-character radix prefix.
    MissingPrefix,
    /// Nothing follows the prefix.
    Empty,
    /// A character after the prefix (and an optional `+`) is no hex digit, or
    /// no digit follows the `+`.
    InvalidDigit,
    /// The value does not fit in a `usize`.
    Overflow,
    /// The value is zero.
    Null,
}

/// The value of a hex digit, upper or lower case.
pub open spec fn hex_digit(b: u8) -> Option<nat> {
    if 0x30 <= b <= 0x39 {
        Some((b - 0x30) as nat)
    } else if 0x41 <= b <= 0x46 {
        Some((b - 0x41 + 10) as nat)
    } else if 0x61 <= b <= 0x66 {
        Some((b - 0x61 + 10) as nat)
    } else {
        None
    }
}

/// Whether every byte is a hex digit.
pub open spec fn all_hex(s: Seq<u8>) -> bool {
    forall|i: int| 0 <= i < s.len() ==> (#[trigger] hex_digit(s[i])) is Some
}

/// The value of a sequence of hex digits, most significant first.
pub open spec fn hex_value(s: Seq<u8>) -> nat
    decreases s.len(),
{
    if s.len() == 0 {
        0
    } else {
        hex_value(s.drop_last()) * 16 + hex_digit(s.last()).unwrap_or(0)
    }
}

/// The digits of an address text: what follows the two-character prefix and
/// an optional `+`.
pub open spec fn address_digits(text: Seq<u8>) -> Seq<u8> {
    let rest = text.subrange(2, text.len() as int);
    if rest.len() > 0 && rest[0] == 0x2B {
        rest.drop_first()
    } else {
        rest
    }
}

/// The outcome of reading an address text: the two-character prefix is
/// skipped, an optional `+` follows, then one or more hex digits whose value
/// must fit in a `usize` and be nonzero.
pub open spec fn parse_address_spec(text: Seq<u8>) -> Result<nat, AddressError> {
    if text.len() < 2 {
        Err(AddressError::MissingPrefix)
    } else if text.len() == 2 {
        Err(AddressError::Empty)
    } else if address_digits(text).len() == 0 || !all_hex(address_digits(text)) {
        Err(AddressError::InvalidDigit)
    } else if hex_value(address_digits(text)) > usize::MAX {
        Err(AddressError::Overflow)
    } else if hex_value(address_digits(text)) == 0 {
        Err(AddressError::Null)
    } else {
        Ok(hex_value(address_digits(text)))
    }
}

proof fn lemma_hex_value_grows(s: Seq<u8>, j: int)
    requires
        0 <= j <= s.len(),
    ensures
        hex_value(s.subrange(0, j)) <= hex_value(s),
    decreases s.len() - j,
{
    if j < s.len() {
        let t = s.subrange(0, j + 1);
        assert(t.drop_last() =~= s.subrange(0, j));
        lemma_hex_value_grows(s, j + 1);
    } else {
        assert(s.subrange(0, j) =~= s);
    }
}

fn hex_digit_exec(b: u8) -> (r: Option<usize>)
    ensures
        r is Some <==> hex_digit(b) is Some,
        r is Some ==> r->Some_0 as nat == hex_digit(b)->Some_0 && r->Some_0 < 16,
{
    if 0x30 <= b && b <= 0x39 {
        Some((b - 0x30) as usize)
    } else if 0x41 <= b && b <= 0x46 {
        Some((b - 0x41 + 10) as usize)
    } else if 0x61 <= b && b <= 0x66 {
        Some((b - 0x61 + 10) as usize)
    } else {
        None
    }
}

/// Reads an address text such as `0x193D598`; see [`parse_address_spec`].
pub fn parse_address(text: &[u8]) -> (r: Result<usize, AddressError>)
    ensures
        match parse_address_spec(text@) {
            Ok(v) => r == Ok::<usize, AddressError>(v as usize),
            Err(e) => r == Err::<usize, AddressError>(e),
        },
{
    if text.len() < 2 {
        return Err(AddressError::MissingPrefix);
    }
    if text.len() == 2 {
        return Err(AddressError::Empty);
    }
    let start: usize = if text[2] == 0x2B { 3 } else { 2 };
    let ghost digits = address_digits(text@);
    assert(digits =~= text@.subrange(start as int, text@.len() as int));
    if start == text.len() {
        return Err(AddressError::InvalidDigit);
    }
    let mut i: usize = start;
    while i < text.len()
        invariant
            2 <= start <= i <= text.len(),
            digits =~= text@.subrange(start as int, text@.len() as int),
            digits == address_digits(text@),
            forall|k: int| start <= k < i ==> (#[trigger] hex_digit(text@[k])) is Some,
        decreases text.len() - i,
    {
        if hex_digit_exec(text[i]).is_none() {
            assert(hex_digit(digits[i - start]) is None);
            assert(!all_hex(digits));
            return Err(AddressError::InvalidDigit);
        }
        i = i + 1;
    }
    assert(all_hex(digits)) by {
        assert forall|k: int| 0 <= k < digits.len() implies (#[trigger] hex_digit(digits[k])) is Some by {
            assert(digits[k] == text@[start + k]);
        }
    }
    let mut acc: usize = 0;
    let mut j: usize = start;
    while j < text.len()
        invariant
            2 <= start <= j <= text.len(),
            digits =~= text@.subrange(start as int, text@.len() as int),
            digits == address_digits(text@),
            all_hex(digits),
            acc as nat == hex_value(digits.subrange(0, j - start)),
        decreases text.len() - j,
    {
        let d = match hex_digit_exec(text[j]) {
            Some(d) => d,
            None => {
                assert(hex_digit(digits[j - start]) is Some);
                return Err(AddressError::InvalidDigit);
            },
        };
        let ghost next = digits.subrange(0, j + 1 - start);
        assert(next.drop_last() =~= digits.subrange(0, j - start));
        assert(next.last() == text@[j as int]);
        if acc > (usize::MAX - d) / 16 {
            assert(acc * 16 + d > usize::MAX) by (nonlinear_arith)
                requires
                    acc > (usize::MAX - d) / 16,
                    d < 16,
            ;
            proof {
                lemma_hex_value_grows(digits, j + 1 - start);
                assert(hex_value(next) == hex_value(next.drop_last()) * 16 + d);
            }
            return Err(AddressError::Overflow);
        }
        assert(acc * 16 + d <= usize::MAX) by (nonlinear_arith)
            requires
                acc <= (usize::MAX - d) / 16,
                d < 16,
        ;
        acc = acc * 16 + d;
        j = j + 1;
    }
    assert(digits.subrange(0, digits.len() as int) =~= digits);
    if acc == 0 {
        Err(AddressError::Null)
    } else {
        Ok(acc)
    }
}

/// A nonzero address in foreign memory.
#[derive(PartialEq, Eq, Structural, Clone, Copy, Debug)]
pub struct NonNullPtr {
    addr: usize,
}

impl NonNullPtr {
    #[verifier::type_invariant]
    spec fn non_null(&self) -> bool {
        self.addr != 0
    }

    /// The address this pointer holds.
    pub closed spec fn addr_spec(&self) -> usize {
        self.addr
    }

    /// A pointer to `addr`, or `None` for the null address.
    pub fn new(addr: usize) -> (r: Option<Self>)
        ensures
            addr == 0 ==> r is None,
            addr != 0 ==> r is Some && r->Some_0.addr_spec() == addr,
    {
        if addr == 0 {
            None
        } else {
            Some(NonNullPtr { addr })
        }
    }

    /// Reads a pointer from its text, as written in the configuration (for
    /// example `0x193D598`).
    pub fn from_hex(text: &[u8]) -> (r: Result<Self, AddressError>)
        ensures
            match parse_address_spec(text@) {
                Ok(v) => r is Ok && r->Ok_0.addr_spec() == v,
                Err(e) => r == Err::<Self, AddressError>(e),
            },
    {
        let addr = parse_address(text)?;
        Ok(NonNullPtr { addr })
    }

    /// The address this pointer holds.
    pub fn addr(&self) -> (r: usize)
        ensures
            r == self.addr_spec(),
            r != 0,
    {
        proof {
            use_type_invariant(self);
        }
        self.addr
    }
}

} // verus!
