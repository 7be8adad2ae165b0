//! Rows as the store returns them, before any validation, and the settings
//! of the connection to the store.

pub mod brewery_repo;
pub mod schedule_repo;
pub mod vendor_repo;

pub use brewery_repo::BreweryRow;
pub use schedule_repo::{Bound, OpenHours, ScheduleRow, ScheduleWindow};
pub use vendor_repo::VendorRow;

use vstd::prelude::*;

verus! {

/// The host that is connected to where none is named.
pub const DEFAULT_HOST: &'static str = "localhost";

/// The port that is connected to where none is named.
pub const DEFAULT_PORT: u16 = 5432;

/// The user where none is named.
pub const DEFAULT_USER: &'static str = "ballard";

/// The password where none is given.
pub const DEFAULT_PASSWORD: &'static str = "ballard";

/// The database where none is named.
pub const DEFAULT_DATABASE: &'static str = "ballard_trucks";

/// How many connections the pool holds at most.
pub const MAX_CONNECTIONS: u32 = 10;

/// After how many seconds a connection is replaced.
pub const MAX_LIFETIME_SECONDS: u64 = 3600;

/// What is reported for a port that is no port.
pub const INVALID_PORT: &'static str = "Failed to parse DB_PORT environment variable";

/// Whether `c` is a decimal digit.
pub open spec fn is_digit(c: char) -> bool {
    '0' <= c <= '9'
}

/// The number that a text of decimal digits denotes.
pub open spec fn decimal_value(digits: Seq<char>) -> nat
    decreases digits.len(),
{
    if digits.len() == 0 {
        0
    } else {
        (10 * decimal_value(digits.drop_last()) + (digits.last() as u32 - '0' as u32)) as nat
    }
}

/// What follows the plus sign of a text that begins with one, else the whole
/// text.
pub open spec fn unsigned_part(text: Seq<char>) -> Seq<char> {
    if text.len() > 0 && text[0] == '+' {
        text.drop_first()
    } else {
        text
    }
}

/// The port that a text denotes: decimal digits, at least one, after at most
/// one plus sign, whose number is no greater than 65535.
pub open spec fn port_of(text: Seq<char>) -> Option<u16> {
    let digits = unsigned_part(text);
    if digits.len() > 0 && (forall|i: int| 0 <= i < digits.len() ==> is_digit(#[trigger] digits[i]))
        && decimal_value(digits) <= u16::MAX {
        Some(decimal_value(digits) as u16)
    } else {
        None
    }
}

/// The number of a text of digits is no smaller than that of any of its
/// beginnings.
proof fn lemma_decimal_value_grows(digits: Seq<char>, length: int)
    requires
        0 <= length <= digits.len(),
        forall|i: int| 0 <= i < digits.len() ==> is_digit(#[trigger] digits[i]),
    ensures
        decimal_value(digits.take(length)) <= decimal_value(digits),
    decreases digits.len() - length,
{
    if length == digits.len() {
        assert(digits.take(length) =~= digits);
    } else {
        let longer = digits.take(length + 1);
        assert(longer.drop_last() =~= digits.take(length));
        assert(is_digit(digits[length]));
        assert(longer.last() == digits[length]);
        lemma_decimal_value_grows(digits, length + 1);
    }
}

/// Reads a port.
pub fn parse_port(text: &str) -> (r: Option<u16>)
    ensures
        r == port_of(text@),
{
    let ghost signed: int = if text@.len() > 0 && text@[0] == '+' {
        1
    } else {
        0
    };
    let ghost digits = unsigned_part(text@);
    assert(digits =~= text@.skip(signed));
    let mut first = true;
    let mut any = false;
    let mut value: u32 = 0;
    for c in chars: text.chars()
        invariant
            chars.seq() == text@,
            digits == text@.skip(signed),
            digits == unsigned_part(text@),
            signed == (if text@.len() > 0 && text@[0] == '+' {
                1int
            } else {
                0int
            }),
            first <==> chars.index() == 0,
            !first ==> chars.index() >= signed,
            any <==> chars.index() > signed,
            forall|i: int| 0 <= i < chars.index() - signed ==> is_digit(#[trigger] digits[i]),
            chars.index() >= signed ==> value == decimal_value(
                digits.take(chars.index() - signed),
            ),
            chars.index() < signed ==> value == 0,
            value <= u16::MAX,
    {
        assert(c == text@[chars.index() as int]);
        if first && c == '+' {
            first = false;
            assert(digits.take(0) =~= Seq::<char>::empty());
        } else {
            first = false;
            let ghost seen: int = chars.index() - signed;
            assert(c == digits[seen]);
            if c < '0' || c > '9' {
                assert(!is_digit(digits[seen]));
                return None;
            }
            proof {
                let longer = digits.take(seen + 1);
                assert(longer.drop_last() =~= digits.take(seen));
                assert(longer.last() == c);
            }
            value = value * 10 + (c as u32 - '0' as u32);
            any = true;
            if value > 65535 {
                proof {
                    if forall|i: int| 0 <= i < digits.len() ==> is_digit(#[trigger] digits[i]) {
                        lemma_decimal_value_grows(digits, seen + 1);
                    }
                }
                return None;
            }
        }
    }
    assert(digits.take(digits.len() as int) =~= digits);
    if any {
        Some(value as u16)
    } else {
        None
    }
}

/// The settings of the connection to the store.
pub struct DbConfig {
    pub host: String,
    pub port: u16,
    pub user: String,
    pub password: String,
    pub database: String,
    pub max_connections: u32,
    pub max_lifetime_seconds: u64,
}

/// A setting: what the environment gives for it, or else its default.
pub open spec fn setting(given: Option<String>, default: Seq<char>) -> Seq<char> {
    match given {
        Some(text) => text@,
        None => default,
    }
}

/// The port setting: the default where the environment gives none, else the
/// port that its text denotes, if any.
pub open spec fn port_setting(given: Option<String>) -> Option<u16> {
    match given {
        Some(text) => port_of(text@),
        None => Some(DEFAULT_PORT),
    }
}

/// What the environment gives for a setting, or else its default.
fn or_default(given: Option<String>, default: &str) -> (r: String)
    ensures
        r@ == setting(given, default@),
{
    match given {
        Some(text) => text,
        None => default.to_owned(),
    }
}

impl DbConfig {
    /// The settings that the environment asks for. Each argument is the
    /// value of one variable, `None` where the variable is not set or is not
    /// text. Only a port that is set and denotes no port is an error.
    pub fn from_vars(
        host: Option<String>,
        port: Option<String>,
        user: Option<String>,
        password: Option<String>,
        database: Option<String>,
    ) -> (r: Result<DbConfig, &'static str>)
        ensures
            match r {
                Ok(config) => {
                    &&& port_setting(port) == Some(config.port)
                    &&& config.host@ == setting(host, DEFAULT_HOST@)
                    &&& config.user@ == setting(user, DEFAULT_USER@)
                    &&& config.password@ == setting(password, DEFAULT_PASSWORD@)
                    &&& config.database@ == setting(database, DEFAULT_DATABASE@)
                    &&& config.max_connections == MAX_CONNECTIONS
                    &&& config.max_lifetime_seconds == MAX_LIFETIME_SECONDS
                },
                Err(error) => port_setting(port) is None && error@ == INVALID_PORT@,
            },
    {
        let port: u16 = match port {
            Some(text) => match parse_port(text.as_str()) {
                Some(port) => port,
                None => return Err(INVALID_PORT),
            },
            None => DEFAULT_PORT,
        };
        Ok(
            DbConfig {
                host: or_default(host, DEFAULT_HOST),
                port,
                user: or_default(user, DEFAULT_USER),
                password: or_default(password, DEFAULT_PASSWORD),
                database: or_default(database, DEFAULT_DATABASE),
                max_connections: MAX_CONNECTIONS,
                max_lifetime_seconds: MAX_LIFETIME_SECONDS,
            },
        )
    }
}

} // verus!
