//! Unit conversions, command lines and small text helpers.
use vstd::prelude::*;

verus! {

/// Number of bytes in one gibibyte.
pub const NB_OF_BYTES_IN_GIB: u64 = 1073741824;

pub open spec fn gib() -> nat {
    1073741824
}

/// `gib` gibibytes expressed in bytes.
pub fn gib_to_bytes(gib: u64) -> (r: u64)
    requires
        gib * crate::utils::gib() <= u64::MAX,
    ensures
        r == gib * crate::utils::gib(),
{
    gib * NB_OF_BYTES_IN_GIB
}

/// Smallest whole number of gibibytes that holds `bytes`.
pub open spec fn ceil_gib(bytes: nat) -> nat {
    ((bytes + gib() - 1) as int / gib() as int) as nat
}

/// `bytes` converted to gibibytes, rounded up.
pub fn bytes_to_gib_rounded(bytes: u64) -> (r: u64)
    ensures
        r == ceil_gib(bytes as nat),
        r * gib() >= bytes,
        r == 0 || (r - 1) * gib() < bytes,
{
    let q = bytes / NB_OF_BYTES_IN_GIB;
    let rem = bytes % NB_OF_BYTES_IN_GIB;
    let r = if rem == 0 { q } else { q + 1 };
    assert(r == ceil_gib(bytes as nat) && r * gib() >= bytes && (r == 0 || (r - 1) * gib() < bytes)) by (nonlinear_arith)
        requires
            q == bytes / 1073741824u64,
            rem == bytes % 1073741824u64,
            r == if rem == 0 { q } else { (q + 1) as u64 },
            gib() == 1073741824,
    ;
    r
}

} // verus!

verus! {

/// What an external program left behind.
#[derive(Clone, Debug, PartialEq)]
pub struct ExecOutput {
    pub success: bool,
    pub stdout: String,
    pub stderr: String,
}

/// An external program to run, with its arguments.
#[derive(Clone, Debug, PartialEq)]
pub struct CommandLine {
    pub program: String,
    pub args: Vec<String>,
}

impl CommandLine {
    /// The program followed by its arguments, as text.
    pub open spec fn words(&self) -> Seq<Seq<char>> {
        seq![self.program@] + self.args@.map_values(|a: String| a@)
    }
}

/// `s` as an owned string.
pub fn owned(s: &str) -> (r: String)
    ensures
        r@ == s@,
{
    s.to_string()
}

/// A command line from a program name and arguments.
pub fn command(program: &str, args: Vec<String>) -> (r: CommandLine)
    ensures
        r.program@ == program@,
        r.args@ == args@,
{
    CommandLine { program: owned(program), args }
}

/// `args`, each preceded by one space.
pub open spec fn spaced(args: Seq<Seq<char>>) -> Seq<char>
    decreases args.len(),
{
    if args.len() == 0 {
        Seq::empty()
    } else {
        spaced(args.drop_last()) + " "@ + args.last()
    }
}

/// The command and its arguments joined by spaces, as a shell would show them.
pub fn cmd_str(cmd: &str, args: &Vec<String>) -> (r: String)
    ensures
        r@ == cmd@ + spaced(args@.map_values(|a: String| a@)),
{
    let mut concatenated = owned(cmd);
    let mut i: usize = 0;
    while i < args.len()
        invariant
            i <= args@.len(),
            concatenated@ == cmd@ + spaced(args@.subrange(0, i as int).map_values(|a: String| a@)),
        decreases args@.len() - i,
    {
        concatenated.append(" ");
        concatenated.append(args[i].as_str());
        proof {
            let prev = args@.subrange(0, i as int).map_values(|a: String| a@);
            let next = args@.subrange(0, i + 1).map_values(|a: String| a@);
            assert(next.drop_last() =~= prev);
            assert(next.last() == args@[i as int]@);
        }
        i = i + 1;
    }
    assert(args@.subrange(0, args@.len() as int) =~= args@);
    concatenated
}

/// The decimal digit for `d` (below ten).
pub open spec fn digit(d: nat) -> char {
    "0123456789"@[d as int]
}

/// The decimal writing of `n`, without leading zeros.
pub open spec fn decimal(n: nat) -> Seq<char>
    decreases n,
{
    if n < 10 {
        seq![digit(n)]
    } else {
        decimal(n / 10).push(digit(n % 10))
    }
}

/// `n` written in decimal.
pub fn decimal_string(n: u64) -> (r: String)
    ensures
        r@ == decimal(n as nat),
    decreases n,
{
    let digits = "0123456789";
    proof {
        reveal_strlit("0123456789");
    }
    let d = (n % 10) as usize;
    let last = digits.substring_char(d, d + 1);
    if n < 10 {
        assert(last@ =~= seq![digit(n as nat)]);
        owned(last)
    } else {
        let mut s = decimal_string(n / 10);
        s.append(last);
        assert(s@ =~= decimal(n as nat));
        s
    }
}

} // verus!

verus! {

/// Owned copies of `parts`, in order.
pub fn strings(parts: &[&str]) -> (r: Vec<String>)
    ensures
        r@.len() == parts@.len(),
        forall|i: int| 0 <= i < parts@.len() ==> #[trigger] r@[i]@ == parts@[i]@,
{
    let mut r: Vec<String> = Vec::new();
    let mut i: usize = 0;
    while i < parts.len()
        invariant
            i <= parts@.len(),
            r@.len() == i,
            forall|j: int| 0 <= j < i ==> #[trigger] r@[j]@ == parts@[j]@,
        decreases parts@.len() - i,
    {
        r.push(owned(parts[i]));
        i = i + 1;
    }
    r
}

/// A command line built from string parts.
pub fn command_of(program: &str, parts: &[&str]) -> (r: CommandLine)
    ensures
        r.words() == seq![program@] + parts@.map_values(|p: &str| p@),
{
    let r = command(program, strings(parts));
    assert(r.words() =~= seq![program@] + parts@.map_values(|p: &str| p@));
    r
}

} // verus!

verus! {

/// Relies on `datetime::Instant::now` and `Instant::seconds`: the system clock's reading,
/// in whole seconds since the Unix epoch (the time lies in the second that starts there).
/// Nothing is promised of the value.
#[verifier::external_body]
pub(crate) fn now_seconds() -> (r: i64) {
    datetime::Instant::now().seconds()
}

} // verus!
