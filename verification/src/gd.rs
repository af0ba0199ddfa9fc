//! How Geometry Dash level ratings and lengths are stored as numbers.
//!
//! Known values are stored as small codes; an unknown value `u` is stored as `u * 100`,
//! and every stored number that is 0 or at least 100 in size reads back as unknown.
use vstd::prelude::*;

verus! {

#[derive(Debug, Clone, Copy, PartialEq, Eq, Structural)]
pub enum DemonRating {
    Unknown(i32),
    Easy,
    Medium,
    Hard,
    Insane,
    Extreme,
}

#[derive(Debug, Clone, Copy, PartialEq, Eq, Structural)]
pub enum LevelRating {
    Unknown(i32),
    Auto,
    Easy,
    Normal,
    Hard,
    Harder,
    Insane,
    NotAvailable,
    Demon(DemonRating),
}

#[derive(Debug, Clone, Copy, PartialEq, Eq, Structural)]
pub enum LevelLength {
    Unknown(i32),
    Tiny,
    Short,
    Medium,
    Long,
    ExtraLong,
    Platformer,
}

/// `a / b` rounded toward zero, as Rust divides integers.
pub open spec fn div_toward_zero(a: int, b: int) -> int
    recommends
        b > 0,
{
    if a >= 0 {
        a / b
    } else {
        -((-a) / b)
    }
}

/// An unknown value stored as a number: the value, cut to 16 bits, times 100.
pub open spec fn unknown_code(unknown: i32) -> int {
    (unknown as i16) * 100
}

/// An unknown value can be stored when its 16-bit part times 100 fits 16 bits.
pub open spec fn storable_unknown(unknown: i32) -> bool {
    -327 <= (unknown as i16) <= 327
}

pub open spec fn storable_rating(rating: LevelRating) -> bool {
    match rating {
        LevelRating::Unknown(u) => storable_unknown(u),
        LevelRating::Demon(DemonRating::Unknown(u)) => storable_unknown(u),
        _ => true,
    }
}

/// The number a level rating is stored as.
pub open spec fn rating_code(rating: LevelRating) -> int {
    match rating {
        LevelRating::Unknown(u) => unknown_code(u),
        LevelRating::Auto => 1,
        LevelRating::Easy => 2,
        LevelRating::Normal => 3,
        LevelRating::Hard => 4,
        LevelRating::Harder => 5,
        LevelRating::Insane => 6,
        LevelRating::NotAvailable => 7,
        LevelRating::Demon(d) => match d {
            DemonRating::Unknown(u) => unknown_code(u),
            DemonRating::Easy => 1,
            DemonRating::Medium => 2,
            DemonRating::Hard => 3,
            DemonRating::Insane => 4,
            DemonRating::Extreme => 5,
        },
    }
}

/// A stored number reads back as unknown when it is 0 or at least 100 in size.
pub open spec fn unknown_range(value: i16) -> bool {
    value == 0 || value >= 100 || value <= -100
}

/// The stored numbers that read back as a rating.
pub open spec fn readable_rating(value: i16, is_demon: bool) -> bool {
    &&& value != i16::MIN
    &&& unknown_range(value) || (is_demon && 1 <= value <= 5) || (!is_demon && 1 <= value <= 7)
}

/// The level rating a stored number reads back as.
pub open spec fn rating_of_code(value: i16, is_demon: bool) -> LevelRating {
    if unknown_range(value) {
        if is_demon {
            LevelRating::Demon(DemonRating::Unknown(div_toward_zero(value as int, 100) as i32))
        } else {
            LevelRating::Unknown(div_toward_zero(value as int, 100) as i32)
        }
    } else if !is_demon {
        if value == 1 {
            LevelRating::Auto
        } else if value == 2 {
            LevelRating::Easy
        } else if value == 3 {
            LevelRating::NotAvailable
        } else if value == 4 {
            LevelRating::Hard
        } else if value == 5 {
            LevelRating::Harder
        } else if value == 6 {
            LevelRating::Insane
        } else {
            LevelRating::NotAvailable
        }
    } else {
        LevelRating::Demon(
            if value == 1 {
                DemonRating::Easy
            } else if value == 2 {
                DemonRating::Medium
            } else if value == 3 {
                DemonRating::Hard
            } else if value == 4 {
                DemonRating::Insane
            } else {
                DemonRating::Extreme
            },
        )
    }
}

pub open spec fn storable_length(length: LevelLength) -> bool {
    match length {
        LevelLength::Unknown(u) => storable_unknown(u),
        _ => true,
    }
}

/// The number a level length is stored as.
pub open spec fn length_code(length: LevelLength) -> int {
    match length {
        LevelLength::Unknown(u) => unknown_code(u),
        LevelLength::Tiny => 1,
        LevelLength::Short => 2,
        LevelLength::Medium => 3,
        LevelLength::Long => 4,
        LevelLength::ExtraLong => 5,
        LevelLength::Platformer => 6,
    }
}

/// The stored numbers that read back as a length.
pub open spec fn readable_length(value: i16) -> bool {
    value != i16::MIN && (unknown_range(value) || 1 <= value <= 6)
}

/// The level length a stored number reads back as.
pub open spec fn length_of_code(value: i16) -> LevelLength {
    if unknown_range(value) {
        LevelLength::Unknown(div_toward_zero(value as int, 100) as i32)
    } else if value == 1 {
        LevelLength::Tiny
    } else if value == 2 {
        LevelLength::Short
    } else if value == 3 {
        LevelLength::Medium
    } else if value == 4 {
        LevelLength::Long
    } else if value == 5 {
        LevelLength::ExtraLong
    } else {
        LevelLength::Platformer
    }
}

fn unknown_to_i16(unknown: i32) -> (r: i16)
    requires
        storable_unknown(unknown),
    ensures
        r == unknown_code(unknown),
{
    let u = unknown as i16;
    u * 100
}

fn unknown_of(value: i16) -> (r: i32)
    requires
        value != i16::MIN,
    ensures
        r == div_toward_zero(value as int, 100),
{
    if value >= 0 {
        (value / 100) as i32
    } else {
        -(((-value) / 100) as i32)
    }
}

impl LevelRating {
    /// Whether this is a demon rating.
    pub open spec fn spec_is_demon(self) -> bool {
        self is Demon
    }

    pub fn is_demon(&self) -> (r: bool)
        ensures
            r == self.spec_is_demon(),
    {
        matches!(self, LevelRating::Demon(_))
    }
}

/// The number a level rating is stored as.
pub fn level_rating_to_i16(level_rating: LevelRating) -> (r: i16)
    requires
        storable_rating(level_rating),
    ensures
        r == rating_code(level_rating),
{
    match level_rating {
        LevelRating::Unknown(unknown) => unknown_to_i16(unknown),
        LevelRating::Auto => 1,
        LevelRating::Easy => 2,
        LevelRating::Normal => 3,
        LevelRating::Hard => 4,
        LevelRating::Harder => 5,
        LevelRating::Insane => 6,
        LevelRating::NotAvailable => 7,
        LevelRating::Demon(demon_rating) => match demon_rating {
            DemonRating::Unknown(unknown) => unknown_to_i16(unknown),
            DemonRating::Easy => 1,
            DemonRating::Medium => 2,
            DemonRating::Hard => 3,
            DemonRating::Insane => 4,
            DemonRating::Extreme => 5,
        },
    }
}

/// The level rating a stored number reads back as.
pub fn i16_to_level_rating(value: i16, is_demon: bool) -> (r: LevelRating)
    requires
        readable_rating(value, is_demon),
    ensures
        r == rating_of_code(value, is_demon),
{
    if value >= 100 || value <= -100 || value == 0 {
        if is_demon {
            return LevelRating::Demon(DemonRating::Unknown(unknown_of(value)));
        } else {
            return LevelRating::Unknown(unknown_of(value));
        }
    }
    if !is_demon {
        match value {
            1 => LevelRating::Auto,
            2 => LevelRating::Easy,
            3 => LevelRating::NotAvailable,
            4 => LevelRating::Hard,
            5 => LevelRating::Harder,
            6 => LevelRating::Insane,
            _ => LevelRating::NotAvailable,
        }
    } else {
        LevelRating::Demon(
            match value {
                1 => DemonRating::Easy,
                2 => DemonRating::Medium,
                3 => DemonRating::Hard,
                4 => DemonRating::Insane,
                _ => DemonRating::Extreme,
            },
        )
    }
}

/// The number a level length is stored as.
pub fn level_length_to_i16(length: LevelLength) -> (r: i16)
    requires
        storable_length(length),
    ensures
        r == length_code(length),
{
    match length {
        LevelLength::Unknown(value) => unknown_to_i16(value),
        LevelLength::Tiny => 1,
        LevelLength::Short => 2,
        LevelLength::Medium => 3,
        LevelLength::Long => 4,
        LevelLength::ExtraLong => 5,
        LevelLength::Platformer => 6,
    }
}

/// The level length a stored number reads back as.
pub fn i16_to_level_length(value: i16) -> (r: LevelLength)
    requires
        readable_length(value),
    ensures
        r == length_of_code(value),
{
    if value >= 100 || value <= -100 || value == 0 {
        return LevelLength::Unknown(unknown_of(value));
    }
    match value {
        1 => LevelLength::Tiny,
        2 => LevelLength::Short,
        3 => LevelLength::Medium,
        4 => LevelLength::Long,
        5 => LevelLength::ExtraLong,
        _ => LevelLength::Platformer,
    }
}

pub proof fn lemma_unknown_roundtrip(u: i32)
    requires
        storable_unknown(u),
    ensures
        unknown_code(u) != i16::MIN,
        unknown_range(unknown_code(u) as i16),
        div_toward_zero(unknown_code(u), 100) == u as i16,
{
    let v = u as i16;
    assert(v * 100 >= -32700 && v * 100 <= 32700) by (nonlinear_arith)
        requires
            -327 <= v <= 327,
    ;
    if v >= 0 {
        assert((v * 100) / 100 == v) by (nonlinear_arith)
            requires
                v >= 0,
        ;
        assert(v == 0 || v * 100 >= 100) by (nonlinear_arith)
            requires
                v >= 0,
        ;
    } else {
        assert((-(v * 100)) / 100 == -v) by (nonlinear_arith)
            requires
                v < 0,
        ;
        assert(v * 100 <= -100) by (nonlinear_arith)
            requires
                v < 0,
        ;
    }
}

/// Law: a stored level rating reads back as itself, for every rating that can be stored
/// except `Normal` (stored as 3, which reads back as `NotAvailable`); an unknown value
/// reads back as its 16-bit part.
pub proof fn law_rating_roundtrip(rating: LevelRating)
    requires
        storable_rating(rating),
        rating != LevelRating::Normal,
    ensures
        readable_rating(rating_code(rating) as i16, rating.spec_is_demon()),
        rating_of_code(rating_code(rating) as i16, rating.spec_is_demon()) == match rating {
            LevelRating::Unknown(u) => LevelRating::Unknown((u as i16) as i32),
            LevelRating::Demon(DemonRating::Unknown(u)) => LevelRating::Demon(DemonRating::Unknown((u as i16) as i32)),
            other => other,
        },
{
    match rating {
        LevelRating::Unknown(u) => lemma_unknown_roundtrip(u),
        LevelRating::Demon(DemonRating::Unknown(u)) => lemma_unknown_roundtrip(u),
        _ => {},
    }
}

/// Law: a stored level length reads back as itself; an unknown value reads back as its
/// 16-bit part.
pub proof fn law_length_roundtrip(length: LevelLength)
    requires
        storable_length(length),
    ensures
        readable_length(length_code(length) as i16),
        length_of_code(length_code(length) as i16) == match length {
            LevelLength::Unknown(u) => LevelLength::Unknown((u as i16) as i32),
            other => other,
        },
{
    if let LevelLength::Unknown(u) = length {
        lemma_unknown_roundtrip(u);
    }
}

/// Who may copy a level.
#[derive(Debug, Clone, Copy, PartialEq, Eq, Structural)]
pub enum Password {
    NoCopy,
    FreeCopy,
    PasswordCopy(u32),
}

/// How a level's copy password is stored: none for no copying, -1 for free copying, and
/// the password (as a signed number) otherwise.
pub open spec fn password_code(password: Password) -> Option<i32> {
    match password {
        Password::NoCopy => None,
        Password::FreeCopy => Some(-1i32),
        Password::PasswordCopy(pw) => Some(pw as i32),
    }
}

/// The password a stored value reads back as.
pub open spec fn password_of_code(code: Option<i32>) -> Password {
    match code {
        None => Password::NoCopy,
        Some(n) => if n == -1 {
            Password::FreeCopy
        } else {
            Password::PasswordCopy(n as u32)
        },
    }
}

pub fn password_to_db(password: Password) -> (r: Option<i32>)
    ensures
        r == password_code(password),
{
    match password {
        Password::NoCopy => None,
        Password::FreeCopy => Some(-1),
        Password::PasswordCopy(pw) => Some(pw as i32),
    }
}

pub fn password_from_db(code: Option<i32>) -> (r: Password)
    ensures
        r == password_of_code(code),
{
    match code {
        None => Password::NoCopy,
        Some(-1) => Password::FreeCopy,
        Some(n) => Password::PasswordCopy(n as u32),
    }
}

/// Law: a stored password reads back as itself, except the password 4294967295, which is
/// stored as -1 and reads back as free copying.
pub proof fn law_password_roundtrip(password: Password)
    requires
        password != Password::PasswordCopy(u32::MAX),
    ensures
        password_of_code(password_code(password)) == password,
{
    if let Password::PasswordCopy(pw) = password {
        assert(pw != u32::MAX);
        assert((pw as i32) != -1 ==> ((pw as i32) as u32) == pw) by (bit_vector);
        assert(pw != 0xffff_ffffu32 ==> (pw as i32) != -1) by (bit_vector);
    }
}

/// Law: the numbers the database holds for level data, which other readers of it rely on:
/// ratings 1 (auto) to 7 (not available) in the order easy, normal, hard, harder, insane;
/// demon ratings 1 (easy) to 5 (extreme); lengths 1 (tiny) to 6 (platformer); an unknown
/// value `u` as `u * 100`; and a free copy as -1, no copying as no value. A stored 3 of a
/// level that is not a demon reads back as not available.
pub proof fn law_stored_codes(u: i32, pw: u32)
    ensures
        rating_code(LevelRating::Auto) == 1 && rating_code(LevelRating::Easy) == 2 && rating_code(LevelRating::Normal) == 3
            && rating_code(LevelRating::Hard) == 4 && rating_code(LevelRating::Harder) == 5 && rating_code(
            LevelRating::Insane,
        ) == 6 && rating_code(LevelRating::NotAvailable) == 7,
        rating_code(LevelRating::Demon(DemonRating::Easy)) == 1 && rating_code(LevelRating::Demon(DemonRating::Medium))
            == 2 && rating_code(LevelRating::Demon(DemonRating::Hard)) == 3 && rating_code(
            LevelRating::Demon(DemonRating::Insane),
        ) == 4 && rating_code(LevelRating::Demon(DemonRating::Extreme)) == 5,
        length_code(LevelLength::Tiny) == 1 && length_code(LevelLength::Short) == 2 && length_code(LevelLength::Medium) == 3
            && length_code(LevelLength::Long) == 4 && length_code(LevelLength::ExtraLong) == 5 && length_code(
            LevelLength::Platformer,
        ) == 6,
        storable_unknown(u) ==> rating_code(LevelRating::Unknown(u)) == (u as i16) * 100 && rating_code(
            LevelRating::Demon(DemonRating::Unknown(u)),
        ) == (u as i16) * 100 && length_code(LevelLength::Unknown(u)) == (u as i16) * 100,
        password_code(Password::NoCopy) is None,
        password_code(Password::FreeCopy) == Some(-1i32),
        rating_of_code(3, false) == LevelRating::NotAvailable,
        password_code(Password::PasswordCopy(pw)) == Some(pw as i32),
{
}

} // verus!
