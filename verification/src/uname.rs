//! A uname record parsed out of a five-line text report: kernel name, node
//! name, kernel release, kernel version, and machine, one per line.

use vstd::prelude::*;

verus! {

/// The index of the first line break at or after `i`, or the length of the
/// sequence when no line break follows.
pub open spec fn spec_line_end(s: Seq<char>, i: int) -> int
    decreases s.len() - i,
{
    if i >= s.len() {
        s.len() as int
    } else if s[i] == '\n' {
        i
    } else {
        spec_line_end(s, i + 1)
    }
}

/// The index at which line `k` starts: line zero starts at the beginning,
/// and each further line starts one past the previous line's break.
pub open spec fn spec_line_start(s: Seq<char>, k: nat) -> int
    decreases k,
{
    if k == 0 {
        0
    } else {
        spec_line_end(s, spec_line_start(s, (k - 1) as nat)) + 1
    }
}

/// Whether the text has a line with index `k`.
pub open spec fn spec_has_line(s: Seq<char>, k: nat) -> bool {
    spec_line_start(s, k) < s.len()
}

/// The content of the line starting at `start`: the characters up to the
/// next line break, with one trailing carriage return stripped.
pub open spec fn spec_line_at(s: Seq<char>, start: int) -> Seq<char>
    recommends
        0 <= start <= s.len(),
{
    let raw = s.subrange(start, spec_line_end(s, start));
    if raw.len() > 0 && raw[raw.len() - 1] == '\r' {
        raw.drop_last()
    } else {
        raw
    }
}

/// The content of line `k`.
pub open spec fn spec_line(s: Seq<char>, k: nat) -> Seq<char>
    recommends
        spec_has_line(s, k),
{
    spec_line_at(s, spec_line_start(s, k))
}

/// Once a line start lies at or beyond the end of the text, every later
/// line start does too.
proof fn lemma_no_line_after(s: Seq<char>, k: nat, m: nat)
    requires
        k <= m,
        spec_line_start(s, k) >= s.len(),
    ensures
        spec_line_start(s, m) >= s.len(),
    decreases m - k,
{
    if m > k {
        assert(spec_line_end(s, spec_line_start(s, k)) == s.len());
        assert(spec_line_start(s, (k + 1) as nat) == s.len() + 1);
        lemma_no_line_after(s, (k + 1) as nat, m);
    }
}

fn find_line_end(s: &str, start: usize) -> (r: usize)
    requires
        start <= s@.len(),
    ensures
        r == spec_line_end(s@, start as int),
        start <= r <= s@.len(),
        r < s@.len() ==> s@[r as int] == '\n',
{
    let n = s.unicode_len();
    let mut i = start;
    while i < n
        invariant
            start <= i <= n,
            n == s@.len(),
            spec_line_end(s@, start as int) == spec_line_end(s@, i as int),
        decreases n - i,
    {
        if s.get_char(i) == '\n' {
            return i;
        }
        i = i + 1;
    }
    i
}

fn extract_line(s: &str, start: usize, end: usize) -> (r: String)
    requires
        start <= end <= s@.len(),
        end == spec_line_end(s@, start as int),
    ensures
        r@ == spec_line_at(s@, start as int),
{
    let sub = if end > start && s.get_char(end - 1) == '\r' {
        s.substring_char(start, end - 1)
    } else {
        s.substring_char(start, end)
    };
    proof {
        let raw = s@.subrange(start as int, end as int);
        if end > start && s@[end - 1] == '\r' {
            assert(sub@ =~= raw.drop_last());
        }
    }
    String::from_str(sub)
}

/// A parsed uname record: the five identification fields reported by the
/// kernel, one per line of its text report.
#[derive(Clone, Debug, PartialEq, Eq)]
pub struct Uname {
    /// Kernel name, the first line.
    pub kernel_name: String,
    /// Node name, the second line.
    pub nodename: String,
    /// Kernel release, the third line.
    pub kernel_release: String,
    /// Kernel version, the fourth line.
    pub kernel_version: String,
    /// Machine, the fifth line.
    pub machine: String,
}

impl Uname {
    /// Parses a uname record from the kernel's text report: the first five
    /// lines become the five fields, and a report of fewer than five lines
    /// yields nothing.
    pub fn from_reading(text: &str) -> (r: Option<Uname>)
        ensures
            r is Some <==> spec_has_line(text@, 4),
            r is Some ==> (r->0).kernel_name@ == spec_line(text@, 0) && (r->0).nodename@
                == spec_line(text@, 1) && (r->0).kernel_release@ == spec_line(text@, 2) && (
            r->0).kernel_version@ == spec_line(text@, 3) && (r->0).machine@ == spec_line(text@, 4),
    {
        let n = text.unicode_len();
        if n == 0 {
            proof {
                lemma_no_line_after(text@, 0, 4);
            }
            return None;
        }
        assert(spec_line_start(text@, 0) == 0);
        let e0 = find_line_end(text, 0);
        let kernel_name = extract_line(text, 0, e0);

        if e0 == n {
            proof {
                lemma_no_line_after(text@, 1, 4);
            }
            return None;
        }
        let s1 = e0 + 1;
        assert(s1 == spec_line_start(text@, 1));
        if s1 == n {
            proof {
                lemma_no_line_after(text@, 1, 4);
            }
            return None;
        }
        let e1 = find_line_end(text, s1);
        let nodename = extract_line(text, s1, e1);

        if e1 == n {
            proof {
                lemma_no_line_after(text@, 2, 4);
            }
            return None;
        }
        let s2 = e1 + 1;
        assert(s2 == spec_line_start(text@, 2));
        if s2 == n {
            proof {
                lemma_no_line_after(text@, 2, 4);
            }
            return None;
        }
        let e2 = find_line_end(text, s2);
        let kernel_release = extract_line(text, s2, e2);

        if e2 == n {
            proof {
                lemma_no_line_after(text@, 3, 4);
            }
            return None;
        }
        let s3 = e2 + 1;
        assert(s3 == spec_line_start(text@, 3));
        if s3 == n {
            proof {
                lemma_no_line_after(text@, 3, 4);
            }
            return None;
        }
        let e3 = find_line_end(text, s3);
        let kernel_version = extract_line(text, s3, e3);

        if e3 == n {
            proof {
                lemma_no_line_after(text@, 4, 4);
            }
            return None;
        }
        let s4 = e3 + 1;
        assert(s4 == spec_line_start(text@, 4));
        if s4 == n {
            proof {
                lemma_no_line_after(text@, 4, 4);
            }
            return None;
        }
        let e4 = find_line_end(text, s4);
        let machine = extract_line(text, s4, e4);

        Some(Uname { kernel_name, nodename, kernel_release, kernel_version, machine })
    }

    /// The name of this implementation of the operating system.
    pub fn sysname(&self) -> (r: &str)
        ensures
            r@ == self.kernel_name@,
    {
        self.kernel_name.as_str()
    }

    /// The network node hostname of this machine.
    pub fn nodename(&self) -> (r: &str)
        ensures
            r@ == self.nodename@,
    {
        self.nodename.as_str()
    }

    /// The current release level of the operating system.
    pub fn release(&self) -> (r: &str)
        ensures
            r@ == self.kernel_release@,
    {
        self.kernel_release.as_str()
    }

    /// The current version level of the current release.
    pub fn version(&self) -> (r: &str)
        ensures
            r@ == self.kernel_version@,
    {
        self.kernel_version.as_str()
    }

    /// The name of the current system's hardware.
    pub fn machine(&self) -> (r: &str)
        ensures
            r@ == self.machine@,
    {
        self.machine.as_str()
    }
}

} // verus!
