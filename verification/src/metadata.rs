use vstd::prelude::*;
use vstd::string::StringExecFns;

verus! {

/// The character of one decimal digit.
pub open spec fn spec_digit(d: int) -> char {
    if d == 0 {
        '0'
    } else if d == 1 {
        '1'
    } else if d == 2 {
        '2'
    } else if d == 3 {
        '3'
    } else if d == 4 {
        '4'
    } else if d == 5 {
        '5'
    } else if d == 6 {
        '6'
    } else if d == 7 {
        '7'
    } else if d == 8 {
        '8'
    } else {
        '9'
    }
}

/// The decimal rendering of a number, most significant digit first.
pub open spec fn spec_decimal(n: int) -> Seq<char>
    decreases n,
{
    if n < 10 {
        seq![spec_digit(n)]
    } else {
        spec_decimal(n / 10).push(spec_digit(n % 10))
    }
}

/// One decimal digit as text.
fn digit_str(d: u64) -> (r: &'static str)
    requires
        d < 10,
    ensures
        r@ == seq![spec_digit(d as int)],
{
    let s: &'static str = if d == 0 {
        "0"
    } else if d == 1 {
        "1"
    } else if d == 2 {
        "2"
    } else if d == 3 {
        "3"
    } else if d == 4 {
        "4"
    } else if d == 5 {
        "5"
    } else if d == 6 {
        "6"
    } else if d == 7 {
        "7"
    } else if d == 8 {
        "8"
    } else {
        "9"
    };
    proof {
        reveal_strlit("0");
        reveal_strlit("1");
        reveal_strlit("2");
        reveal_strlit("3");
        reveal_strlit("4");
        reveal_strlit("5");
        reveal_strlit("6");
        reveal_strlit("7");
        reveal_strlit("8");
        reveal_strlit("9");
        assert(s@ =~= seq![spec_digit(d as int)]);
    }
    s
}

/// Render a number in decimal.
fn u64_to_string(n: u64) -> (r: String)
    ensures
        r@ == spec_decimal(n as int),
    decreases n,
{
    if n < 10 {
        String::from_str(digit_str(n))
    } else {
        let mut s = u64_to_string(n / 10);
        s.append(digit_str(n % 10));
        proof {
            assert(s@ =~= spec_decimal(n as int));
        }
        s
    }
}

/// Metadata collected about a file or directory.
///
/// This stores:
/// - the amount of bytes saved to or removed from disk, and
/// - the path where the file or directory is, or was.
///
/// It is the uniform result envelope of every successful disk operation.
/// It is never mutated after construction.
#[derive(Clone, Debug, Hash)]
pub struct Metadata {
    size: u64,
    path: String,
}

impl PartialEq for Metadata {
    /// Two records are equal when both their byte counts and their paths
    /// are.
    fn eq(&self, other: &Metadata) -> (r: bool) {
        self.size == other.size && self.path == other.path
    }
}

impl vstd::std_specs::cmp::PartialEqSpecImpl for Metadata {
    open spec fn obeys_eq_spec() -> bool {
        true
    }

    open spec fn eq_spec(&self, other: &Metadata) -> bool {
        self.spec_size() == other.spec_size() && self.spec_path() == other.spec_path()
    }
}

impl Metadata {
    /// The amount of bytes this record reports.
    pub closed spec fn spec_size(&self) -> u64 {
        self.size
    }

    /// The path this record reports, as a sequence of characters.
    pub closed spec fn spec_path(&self) -> Seq<char> {
        self.path@
    }

    /// Create a new `Metadata`.
    pub fn new(size: u64, path: String) -> (r: Self)
        ensures
            r.spec_size() == size,
            r.spec_path() == path@,
    {
        Self { size, path }
    }

    /// Create a new `Metadata` of zero bytes.
    pub fn zero(path: String) -> (r: Self)
        ensures
            r.spec_size() == 0,
            r.spec_path() == path@,
    {
        Self { size: 0, path }
    }

    /// Returns the amount of bytes removed from or saved to disk.
    pub fn size(&self) -> (r: u64)
        ensures
            r == self.spec_size(),
    {
        self.size
    }

    /// Returns the path of the file or directory.
    pub fn path(self) -> (r: String)
        ensures
            r@ == self.spec_path(),
    {
        self.path
    }

    /// Clone and return the inner parts.
    pub fn to_parts(&self) -> (r: (u64, String))
        ensures
            r.0 == self.spec_size(),
            r.1@ == self.spec_path(),
    {
        (self.size, self.path.clone())
    }

    /// Consume `Metadata` and return the inner parts.
    pub fn into_parts(self) -> (r: (u64, String))
        ensures
            r.0 == self.spec_size(),
            r.1@ == self.spec_path(),
    {
        (self.size, self.path)
    }

    /// One human-readable line for this record: the byte count in
    /// decimal, then the path.
    pub fn describe(&self) -> (r: String)
        ensures
            r@ == spec_decimal(self.spec_size() as int) + " bytes @ "@ + self.spec_path(),
    {
        let mut s = u64_to_string(self.size);
        s.append(" bytes @ ");
        s.append(self.path.as_str());
        s
    }
}

} // verus!
