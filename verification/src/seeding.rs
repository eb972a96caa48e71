//! Filling the local store with data before the server opens.
use crate::endpoints::ServerError;
use crate::settings::{ImmutableStoreSettings, LocalImmutableStoreSettings};
use crate::stores::{self, StoreMode};
use crate::text;
use vstd::prelude::*;

verus! {

/// How many entries are buffered where nothing else is asked for.
pub const DEFAULT_BUFFER_SIZE: usize = 16834;

/// The flush delay while seeding, in seconds: as long as can be written down.
pub const SEEDING_FLUSH_DELAY_SECS: u16 = 65535;

/// The value of a decimal digit.
pub open spec fn digit_value(c: char) -> Option<nat> {
    if '0' <= c <= '9' {
        Some((c as nat - '0' as nat) as nat)
    } else {
        None
    }
}

/// The value of a row of decimal digits; nothing where another character stands among them.
pub open spec fn digits_value(s: Seq<char>) -> Option<nat>
    decreases s.len(),
{
    if s.len() == 0 {
        Some(0)
    } else {
        match (digits_value(s.drop_last()), digit_value(s.last())) {
            (Some(high), Some(low)) => Some(high * 10 + low),
            _ => None,
        }
    }
}

/// What remains behind a plus sign.
pub open spec fn unsigned_text(s: Seq<char>) -> Seq<char> {
    if s.len() > 0 && s[0] == '+' {
        s.skip(1)
    } else {
        s
    }
}

/// The number that a text stands for: at least one decimal digit, with or without a plus sign in
/// front, and not more than fits.
pub open spec fn usize_value(s: Seq<char>) -> Option<usize> {
    match digits_value(unsigned_text(s)) {
        Some(n) => if unsigned_text(s).len() > 0 && n <= usize::MAX {
            Some(n as usize)
        } else {
            None
        },
        None => None,
    }
}

/// More digits make no smaller number, and no number of what is none.
proof fn lemma_digits_grow(s: Seq<char>, n: int)
    requires
        0 <= n <= s.len(),
    ensures
        match digits_value(s) {
            Some(value) => digits_value(s.take(n)) is Some && digits_value(s.take(n))->0 <= value,
            None => true,
        },
    decreases s.len(),
{
    if n == s.len() {
        assert(s.take(n) =~= s);
    } else {
        assert(s.drop_last().take(n) =~= s.take(n));
        lemma_digits_grow(s.drop_last(), n);
    }
}

/// Reads a number.
pub fn parse_usize(s: &str) -> (res: Option<usize>)
    ensures
        res == usize_value(s@),
{
    let chars = text::chars_of(s);
    let start: usize = if chars.len() > 0 && chars[0] == '+' {
        1
    } else {
        0
    };
    let ghost digits = unsigned_text(s@);
    assert(digits =~= chars@.skip(start as int));
    if start == chars.len() {
        return None;
    }
    let mut value: usize = 0;
    let mut i: usize = start;
    assert(digits.take(0) =~= Seq::empty());
    while i < chars.len()
        invariant
            start <= i <= chars@.len(),
            digits == chars@.skip(start as int),
            digits == unsigned_text(s@),
            digits.len() > 0,
            digits_value(digits.take(i - start)) == Some(value as nat),
        decreases chars@.len() - i,
    {
        let c = chars[i];
        proof {
            assert(digits[i - start] == c);
            assert(digits.take(i - start + 1).drop_last() =~= digits.take(i - start));
            assert(digits.take(i - start + 1).last() == c);
            lemma_digits_grow(digits, i - start + 1);
        }
        if !('0' <= c && c <= '9') {
            return None;
        }
        let low: usize = (c as u32 - '0' as u32) as usize;
        value = match value.checked_mul(10) {
            Some(high) => match high.checked_add(low) {
                Some(value) => value,
                None => return None,
            },
            None => return None,
        };
        i = i + 1;
    }
    assert(digits.take(i - start) =~= digits);
    Some(value)
}

/// Why there is nothing to seed.
#[derive(Debug, Clone, Copy, PartialEq, Eq, Structural)]
pub enum SeedingFault {
    MissingLocal,
    MissingComposite,
    NoLocalStore,
    MissingMaxSize,
}

impl SeedingFault {
    /// The message for the fault.
    pub open spec fn text(self) -> Seq<char> {
        match self {
            SeedingFault::MissingLocal => "Missing local immutable store settings"@,
            SeedingFault::MissingComposite => "Missing composite store settings"@,
            SeedingFault::NoLocalStore => "No local store settings found"@,
            SeedingFault::MissingMaxSize => "Missing max size on local store settings"@,
        }
    }

    /// The error for the fault.
    pub fn error(self) -> (res: ServerError)
        ensures
            res.message@ == self.text(),
    {
        match self {
            SeedingFault::MissingLocal => ServerError::new(
                "Missing local immutable store settings",
            ),
            SeedingFault::MissingComposite => ServerError::new("Missing composite store settings"),
            SeedingFault::NoLocalStore => ServerError::new("No local store settings found"),
            SeedingFault::MissingMaxSize => ServerError::new(
                "Missing max size on local store settings",
            ),
        }
    }
}

/// The local store that can be seeded: the store itself, or the local part of a composite one.
pub open spec fn seeding_store<'a>(settings: &'a ImmutableStoreSettings) -> Result<
    &'a LocalImmutableStoreSettings,
    SeedingFault,
> {
    match stores::mode_named(settings.mode@) {
        StoreMode::Local => match &settings.local {
            Some(local) => Ok(local),
            None => Err(SeedingFault::MissingLocal),
        },
        StoreMode::Composite => match &settings.composite {
            Some(composite) => match &composite.local.local {
                Some(local) => Ok(local),
                None => Err(SeedingFault::MissingComposite),
            },
            None => Err(SeedingFault::MissingComposite),
        },
        _ => Err(SeedingFault::NoLocalStore),
    }
}

/// Finds the local store that can be seeded.
pub fn find_seeding_store<'a>(settings: &'a ImmutableStoreSettings) -> (res: Result<
    &'a LocalImmutableStoreSettings,
    SeedingFault,
>)
    ensures
        res == seeding_store(settings),
{
    match stores::mode_from_name(settings.mode.as_str()) {
        StoreMode::Local => match &settings.local {
            Some(local) => Ok(local),
            None => Err(SeedingFault::MissingLocal),
        },
        StoreMode::Composite => match &settings.composite {
            Some(composite) => match &composite.local.local {
                Some(local) => Ok(local),
                None => Err(SeedingFault::MissingComposite),
            },
            None => Err(SeedingFault::MissingComposite),
        },
        _ => Err(SeedingFault::NoLocalStore),
    }
}

/// The variables that steer seeding, where they are set.
#[derive(Debug)]
pub struct SeedingVariables<'a> {
    pub seeding: Option<&'a str>,
    pub margin: Option<&'a str>,
    pub buffer: Option<&'a str>,
}

/// How much is seeded.
#[derive(Debug, Clone, Copy, PartialEq, Eq, Structural)]
pub struct SeedingRun {
    pub max_size: u64,
    pub margin: usize,
    pub buffer: usize,
}

/// How the local store is seeded: it is opened with these two settings in place of its own, and
/// then filled, if it has a size to be filled to.
#[derive(Debug, Clone, Copy)]
pub struct SeedingPlan {
    pub flush_delay_seconds: u16,
    pub flush_background: bool,
    pub run: Result<SeedingRun, SeedingFault>,
}

/// The number in a variable, or another one where it is not set or no number.
pub open spec fn variable_or(variable: Option<&str>, otherwise: usize) -> usize {
    match variable {
        Some(value) => match usize_value(value@) {
            Some(n) => n,
            None => otherwise,
        },
        None => otherwise,
    }
}

/// Reads the number in a variable.
fn read_variable(variable: Option<&str>, otherwise: usize) -> (res: usize)
    ensures
        res == variable_or(variable, otherwise),
{
    match variable {
        Some(value) => match parse_usize(value) {
            Some(n) => n,
            None => otherwise,
        },
        None => otherwise,
    }
}

/// Decides how the local store is seeded. It is not, unless the variable for it is set.
pub fn seed_local_store(settings: &LocalImmutableStoreSettings, variables: SeedingVariables<'_>) -> (res:
    Option<SeedingPlan>)
    ensures
        res == match variables.seeding {
            Some(_) => Some(
                SeedingPlan {
                    flush_delay_seconds: SEEDING_FLUSH_DELAY_SECS,
                    flush_background: false,
                    run: match settings.max_size {
                        Some(max_size) => Ok(
                            SeedingRun {
                                max_size,
                                margin: variable_or(variables.margin, 0),
                                buffer: variable_or(variables.buffer, DEFAULT_BUFFER_SIZE),
                            },
                        ),
                        None => Err(SeedingFault::MissingMaxSize),
                    },
                },
            ),
            None => None,
        },
{
    match variables.seeding {
        Some(_) => {
            let run = match settings.max_size {
                Some(max_size) => Ok(
                    SeedingRun {
                        max_size,
                        margin: read_variable(variables.margin, 0),
                        buffer: read_variable(variables.buffer, DEFAULT_BUFFER_SIZE),
                    },
                ),
                None => Err(SeedingFault::MissingMaxSize),
            };
            Some(
                SeedingPlan {
                    flush_delay_seconds: SEEDING_FLUSH_DELAY_SECS,
                    flush_background: false,
                    run,
                },
            )
        },
        None => None,
    }
}

/// What comes of seeding. The store is flushed whether or not it could be filled, and a failure of
/// that counts first.
pub fn seeding_outcome<E>(seeded: Result<(), E>, flushed: Result<(), E>) -> (res: Result<(), E>)
    ensures
        res == match flushed {
            Ok(_) => seeded,
            Err(e) => Err(e),
        },
{
    match flushed {
        Ok(_) => seeded,
        Err(e) => Err(e),
    }
}

} // verus!
