//! Engine version tuples: their text form and their total order.

use vstd::prelude::*;
use vstd::string::*;

verus! {

/// Release channel of an engine build, in ascending order.
#[derive(Clone, Copy, Debug, PartialEq, Eq, PartialOrd, Ord, Hash, Structural)]
pub enum VersionType {
    Alpha,
    Beta,
    Final,
    Patch,
    Experimental,
    China,
}

/// An engine version such as `2019.2.17f1`.
///
/// Versions are ordered lexicographically over the five fields, in
/// declaration order; see [`UnityVersion::key`].
#[derive(Clone, Copy, Debug, PartialEq, Eq, PartialOrd, Ord, Hash, Structural)]
pub struct UnityVersion {
    pub major: u16,
    pub minor: u16,
    pub build: u16,
    pub version_type: VersionType,
    pub type_number: u8,
}

/// Why a version string was rejected.
#[derive(Clone, Copy, Debug, PartialEq, Eq, Structural)]
pub enum VersionParseError {
    /// A decimal number was expected where none stands.
    MissingNumber,
    /// A component does not fit its field.
    NumberTooLarge,
    /// The character after the numbers is no release letter.
    UnknownReleaseType(char),
    /// Characters follow a complete version.
    TrailingCharacters,
}

impl VersionType {
    /// Position of the channel in the order `alpha < beta < final < patch <
    /// experimental < china`.
    pub open spec fn rank(self) -> int {
        match self {
            VersionType::Alpha => 0,
            VersionType::Beta => 1,
            VersionType::Final => 2,
            VersionType::Patch => 3,
            VersionType::Experimental => 4,
            VersionType::China => 5,
        }
    }

    /// The channel a release letter stands for.
    pub open spec fn of_letter(c: char) -> Option<VersionType> {
        if c == 'a' {
            Some(VersionType::Alpha)
        } else if c == 'b' {
            Some(VersionType::Beta)
        } else if c == 'f' {
            Some(VersionType::Final)
        } else if c == 'p' {
            Some(VersionType::Patch)
        } else if c == 'x' {
            Some(VersionType::Experimental)
        } else if c == 'c' {
            Some(VersionType::China)
        } else {
            None
        }
    }

    /// The channel a release letter stands for.
    pub fn from_letter(c: char) -> (r: Option<VersionType>)
        ensures
            r == Self::of_letter(c),
    {
        if c == 'a' {
            Some(VersionType::Alpha)
        } else if c == 'b' {
            Some(VersionType::Beta)
        } else if c == 'f' {
            Some(VersionType::Final)
        } else if c == 'p' {
            Some(VersionType::Patch)
        } else if c == 'x' {
            Some(VersionType::Experimental)
        } else if c == 'c' {
            Some(VersionType::China)
        } else {
            None
        }
    }

    /// Position of the channel in the order of channels.
    fn rank_of(self) -> (r: u8)
        ensures
            r as int == self.rank(),
    {
        match self {
            VersionType::Alpha => 0,
            VersionType::Beta => 1,
            VersionType::Final => 2,
            VersionType::Patch => 3,
            VersionType::Experimental => 4,
            VersionType::China => 5,
        }
    }
}

/// Whether `c` is one of `0` to `9`.
pub open spec fn is_digit(c: char) -> bool {
    '0' <= c && c <= '9'
}

/// Decimal value of the digits that start at `i`, continuing the value `acc`
/// read so far, together with the index of the first character that is no
/// digit.
pub open spec fn scan_digits(s: Seq<char>, i: int, acc: nat) -> (nat, int)
    decreases s.len() - i,
{
    if 0 <= i < s.len() && is_digit(s[i]) {
        scan_digits(s, i + 1, acc * 10 + (s[i] as nat - '0' as nat) as nat)
    } else {
        (acc, i)
    }
}

/// A number of at least one digit at `i` that does not exceed `max`.
pub open spec fn scan_number(s: Seq<char>, i: int, max: nat) -> Result<(nat, int), VersionParseError> {
    let (value, end) = scan_digits(s, i, 0);
    if end == i {
        Err(VersionParseError::MissingNumber)
    } else if value > max {
        Err(VersionParseError::NumberTooLarge)
    } else {
        Ok((value, end))
    }
}

/// The release suffix at `i`: nothing, or a release letter and an optional
/// number, up to the end of the string.
pub open spec fn scan_suffix(s: Seq<char>, i: int) -> Result<(VersionType, nat), VersionParseError> {
    if i >= s.len() {
        Ok((VersionType::Final, 0))
    } else {
        match VersionType::of_letter(s[i]) {
            None => Err(VersionParseError::UnknownReleaseType(s[i])),
            Some(t) => {
                let (value, end) = scan_digits(s, i + 1, 0);
                if value > u8::MAX {
                    Err(VersionParseError::NumberTooLarge)
                } else if end < s.len() {
                    Err(VersionParseError::TrailingCharacters)
                } else {
                    Ok((t, value))
                }
            },
        }
    }
}

/// The version built from the numbers read and the suffix at `i`.
pub open spec fn finish(s: Seq<char>, i: int, major: nat, minor: nat, build: nat) -> Result<
    UnityVersion,
    VersionParseError,
> {
    match scan_suffix(s, i) {
        Err(e) => Err(e),
        Ok((t, n)) => Ok(
            UnityVersion {
                major: major as u16,
                minor: minor as u16,
                build: build as u16,
                version_type: t,
                type_number: n as u8,
            },
        ),
    }
}

/// Meaning of a version string: up to three decimal numbers separated by
/// dots, then an optional release suffix. Components left out are 0, and a
/// missing suffix is `final` 0.
pub open spec fn parse_version(s: Seq<char>) -> Result<UnityVersion, VersionParseError> {
    match scan_number(s, 0, u16::MAX as nat) {
        Err(e) => Err(e),
        Ok((major, i)) => if !(i < s.len() && s[i] == '.') {
            finish(s, i, major, 0, 0)
        } else {
            match scan_number(s, i + 1, u16::MAX as nat) {
                Err(e) => Err(e),
                Ok((minor, j)) => if !(j < s.len() && s[j] == '.') {
                    finish(s, j, major, minor, 0)
                } else {
                    match scan_number(s, j + 1, u16::MAX as nat) {
                        Err(e) => Err(e),
                        Ok((build, k)) => finish(s, k, major, minor, build),
                    }
                },
            }
        },
    }
}

/// The value read by `scan_digits` never falls below what was read so far,
/// and the scan stops between its start and the end of the string.
pub proof fn scan_digits_bounds(s: Seq<char>, i: int, acc: nat)
    requires
        0 <= i <= s.len(),
    ensures
        scan_digits(s, i, acc).0 >= acc,
        i <= scan_digits(s, i, acc).1 <= s.len(),
    decreases s.len() - i,
{
    if i < s.len() && is_digit(s[i]) {
        scan_digits_bounds(s, i + 1, acc * 10 + (s[i] as nat - '0' as nat) as nat);
    }
}

/// Reads the digits at `i`. `None` stands for a value above `max`.
fn read_digits(s: &str, len: usize, i: usize, max: u32) -> (r: (Option<u32>, usize))
    requires
        len == s@.len(),
        i <= len,
        max <= 0xffff,
    ensures
        r.1 as int == scan_digits(s@, i as int, 0).1,
        i <= r.1 <= len,
        match r.0 {
            Some(v) => v as nat == scan_digits(s@, i as int, 0).0 && v <= max,
            None => scan_digits(s@, i as int, 0).0 > max,
        },
{
    let mut acc: u32 = 0;
    let mut over: bool = false;
    let mut j: usize = i;
    proof {
        scan_digits_bounds(s@, i as int, 0);
    }
    while j < len
        invariant
            len == s@.len(),
            i <= j <= len,
            max <= 0xffff,
            acc <= max,
            scan_digits(s@, i as int, 0).1 == scan_digits(s@, j as int, if over { (max + 1) as nat } else { acc as nat }).1,
            !over ==> scan_digits(s@, i as int, 0) == scan_digits(s@, j as int, acc as nat),
            over ==> scan_digits(s@, i as int, 0).0 > max,
        ensures
            j == len || !is_digit(s@[j as int]),
        decreases len - j,
    {
        let c: char = s.get_char(j);
        if !(c >= '0' && c <= '9') {
            break;
        }
        let d: u32 = c as u32 - '0' as u32;
        proof {
            scan_digits_end_any(s@, j as int + 1, acc as nat * 10 + d as nat, (max + 1) as nat);
            scan_digits_end_any(
                s@,
                j as int + 1,
                ((max + 1) * 10 + d) as nat,
                (max + 1) as nat,
            );
            scan_digits_bounds(s@, j as int + 1, acc as nat * 10 + d as nat);
        }
        if !over {
            let next: u32 = acc * 10 + d;
            if next > max {
                over = true;
            } else {
                acc = next;
            }
        }
        j += 1;
    }
    if over {
        (None, j)
    } else {
        (Some(acc), j)
    }
}

/// Where the digits end does not depend on the value read so far.
pub proof fn scan_digits_end_any(s: Seq<char>, i: int, a: nat, b: nat)
    requires
        0 <= i <= s.len(),
    ensures
        scan_digits(s, i, a).1 == scan_digits(s, i, b).1,
    decreases s.len() - i,
{
    if i < s.len() && is_digit(s[i]) {
        let d = (s[i] as nat - '0' as nat) as nat;
        scan_digits_end_any(s, i + 1, a * 10 + d, b * 10 + d);
    }
}

/// Reads a number of at least one digit at `i` that fits 16 bits.
fn read_number(s: &str, len: usize, i: usize) -> (r: Result<(u16, usize), VersionParseError>)
    requires
        len == s@.len(),
        i <= len,
    ensures
        match scan_number(s@, i as int, u16::MAX as nat) {
            Ok((v, e)) => r == Ok::<(u16, usize), VersionParseError>((v as u16, e as usize)) && v
                <= u16::MAX && i < e <= len,
            Err(e) => r == Err::<(u16, usize), VersionParseError>(e),
        },
{
    let (value, end) = read_digits(s, len, i, 0xffff);
    if end == i {
        return Err(VersionParseError::MissingNumber);
    }
    match value {
        None => Err(VersionParseError::NumberTooLarge),
        Some(v) => Ok((v as u16, end)),
    }
}

/// Reads the release suffix at `i`, which must end the string.
fn read_suffix(s: &str, len: usize, i: usize) -> (r: Result<(VersionType, u8), VersionParseError>)
    requires
        len == s@.len(),
        i <= len,
    ensures
        match scan_suffix(s@, i as int) {
            Ok((t, n)) => r == Ok::<(VersionType, u8), VersionParseError>((t, n as u8)) && n
                <= u8::MAX,
            Err(e) => r == Err::<(VersionType, u8), VersionParseError>(e),
        },
{
    if i >= len {
        return Ok((VersionType::Final, 0));
    }
    let c: char = s.get_char(i);
    match VersionType::from_letter(c) {
        None => Err(VersionParseError::UnknownReleaseType(c)),
        Some(t) => {
            let (value, end) = read_digits(s, len, i + 1, 0xff);
            match value {
                None => Err(VersionParseError::NumberTooLarge),
                Some(v) => {
                    if end < len {
                        Err(VersionParseError::TrailingCharacters)
                    } else {
                        Ok((t, v as u8))
                    }
                },
            }
        },
    }
}

/// Reads the suffix at `i` and builds the version from it and the
/// numbers read before.
fn read_rest(s: &str, len: usize, i: usize, major: u16, minor: u16, build: u16) -> (r: Result<
    UnityVersion,
    VersionParseError,
>)
    requires
        len == s@.len(),
        i <= len,
    ensures
        r == finish(s@, i as int, major as nat, minor as nat, build as nat),
{
    match read_suffix(s, len, i) {
        Err(e) => Err(e),
        Ok((t, n)) => Ok(UnityVersion { major, minor, build, version_type: t, type_number: n }),
    }
}

impl UnityVersion {
    /// The release `major.minor.build`: channel `final`, number 0.
    pub open spec fn release(major: u16, minor: u16, build: u16) -> UnityVersion {
        UnityVersion { major, minor, build, version_type: VersionType::Final, type_number: 0 }
    }

    /// The release `major.minor.build`: channel `final`, number 0.
    pub fn new(major: u16, minor: u16, build: u16) -> (r: UnityVersion)
        ensures
            r == Self::release(major, minor, build),
    {
        UnityVersion { major, minor, build, version_type: VersionType::Final, type_number: 0 }
    }

    /// Whether this version is the release `major.minor.build` or a later
    /// one.
    pub open spec fn since(self, major: u16, minor: u16, build: u16) -> bool {
        !self.precedes(Self::release(major, minor, build))
    }

    /// Whether this version is the release `major.minor.build` or a later
    /// one.
    pub fn is_since(&self, major: u16, minor: u16, build: u16) -> (r: bool)
        ensures
            r == self.since(major, minor, build),
    {
        self.at_least(&UnityVersion::new(major, minor, build))
    }

    /// Parses a version string; the result is [`parse_version`] of its
    /// characters.
    pub fn parse(s: &str) -> (r: Result<UnityVersion, VersionParseError>)
        ensures
            r == parse_version(s@),
    {
        let len: usize = s.unicode_len();
        let (major, i) = match read_number(s, len, 0) {
            Err(e) => { return Err(e); },
            Ok(p) => p,
        };
        if !(i < len && s.get_char(i) == '.') {
            return read_rest(s, len, i, major, 0, 0);
        }
        let (minor, j) = match read_number(s, len, i + 1) {
            Err(e) => { return Err(e); },
            Ok(p) => p,
        };
        if !(j < len && s.get_char(j) == '.') {
            return read_rest(s, len, j, major, minor, 0);
        }
        let (build, k) = match read_number(s, len, j + 1) {
            Err(e) => { return Err(e); },
            Ok(p) => p,
        };
        read_rest(s, len, k, major, minor, build)
    }

    /// The version as one integer whose order is the order of versions:
    /// the five fields as digits, most significant first.
    pub open spec fn key(self) -> int {
        (((self.major as int * 0x10000 + self.minor as int) * 0x10000 + self.build as int) * 6
            + self.version_type.rank()) * 0x100 + self.type_number as int
    }

    /// Lexicographic "less than" over major, minor, build, channel, number.
    pub open spec fn precedes(self, other: UnityVersion) -> bool {
        if self.major != other.major {
            self.major < other.major
        } else if self.minor != other.minor {
            self.minor < other.minor
        } else if self.build != other.build {
            self.build < other.build
        } else if self.version_type != other.version_type {
            self.version_type.rank() < other.version_type.rank()
        } else {
            self.type_number < other.type_number
        }
    }

    /// Whether `self` comes strictly before `other`.
    pub fn before(&self, other: &UnityVersion) -> (r: bool)
        ensures
            r == self.precedes(*other),
    {
        if self.major != other.major {
            return self.major < other.major;
        }
        if self.minor != other.minor {
            return self.minor < other.minor;
        }
        if self.build != other.build {
            return self.build < other.build;
        }
        let a: u8 = self.version_type.rank_of();
        let b: u8 = other.version_type.rank_of();
        if a != b {
            return a < b;
        }
        self.type_number < other.type_number
    }

    /// Whether `self` is `other` or comes after it.
    pub fn at_least(&self, other: &UnityVersion) -> (r: bool)
        ensures
            r == !self.precedes(*other),
    {
        !self.before(other)
    }
}

/// The lexicographic order is the order of the keys, and equal keys mean
/// equal versions.
pub proof fn order_by_key(a: UnityVersion, b: UnityVersion)
    ensures
        a.precedes(b) <==> a.key() < b.key(),
        a.key() == b.key() <==> a == b,
{
}

/// Any two versions are comparable: exactly one of `a < b`, `a == b` and
/// `b < a` holds.
pub proof fn order_total(a: UnityVersion, b: UnityVersion)
    ensures
        a.precedes(b) || a == b || b.precedes(a),
        !(a.precedes(b) && b.precedes(a)),
        !(a.precedes(b) && a == b),
{
    order_by_key(a, b);
    order_by_key(b, a);
}

/// The order is transitive.
pub proof fn order_transitive(a: UnityVersion, b: UnityVersion, c: UnityVersion)
    requires
        a.precedes(b),
        b.precedes(c),
    ensures
        a.precedes(c),
{
    order_by_key(a, b);
    order_by_key(b, c);
    order_by_key(a, c);
}

impl TryFrom<&str> for UnityVersion {
    type Error = VersionParseError;

    /// Parses a version string, as [`UnityVersion::parse`] does.
    fn try_from(value: &str) -> (r: Result<Self, Self::Error>) {
        UnityVersion::parse(value)
    }
}

impl vstd::std_specs::convert::TryFromSpecImpl<&str> for UnityVersion {
    open spec fn obeys_try_from_spec() -> bool {
        true
    }

    open spec fn try_from_spec(value: &str) -> Result<Self, VersionParseError> {
        parse_version(value@)
    }
}

} // verus!
