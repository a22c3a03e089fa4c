use vstd::prelude::*;
use crate::text::{all_digits, chars_of, digit, is_digit, slice_of};

verus! {

/// Index of the first `.` in `t` at or after `i`, or `t.len()`.
pub open spec fn dot_from(t: Seq<char>, i: int) -> int
    decreases t.len() - i,
{
    if 0 <= i < t.len() {
        if t[i] == '.' {
            i
        } else {
            dot_from(t, i + 1)
        }
    } else {
        t.len() as int
    }
}

/// The integer and fractional digits of a decimal number written
/// `<digits>`, `<digits>.<digits>`, `<digits>.` or `.<digits>`;
/// `None` for any other text.
pub open spec fn decimal_parts(t: Seq<char>) -> Option<(Seq<char>, Seq<char>)> {
    let k = dot_from(t, 0);
    let w = t.subrange(0, k);
    let f = if k < t.len() {
        t.subrange(k + 1, t.len() as int)
    } else {
        Seq::empty()
    };
    if all_digits(w) && all_digits(f) && w.len() + f.len() > 0 {
        Some((w, f))
    } else {
        None
    }
}

pub open spec fn pow10(n: nat) -> nat
    decreases n,
{
    if n == 0 {
        1
    } else {
        10 * pow10((n - 1) as nat)
    }
}

/// The number that a string of decimal digits denotes.
pub open spec fn digits_value(s: Seq<char>) -> nat
    decreases s.len(),
{
    if s.len() == 0 {
        0
    } else {
        digits_value(s.drop_last()) * 10 + ((s.last() as u32) - 48) as nat
    }
}

/// Index of the first character of `w` at or after `i` that is not `0`.
pub open spec fn zeros_from(w: Seq<char>, i: int) -> int
    decreases w.len() - i,
{
    if 0 <= i < w.len() && w[i] == '0' {
        zeros_from(w, i + 1)
    } else {
        i
    }
}

/// The integer digits `w` written without leading zeros (`0` when none remain).
pub open spec fn whole_text(w: Seq<char>) -> Seq<char> {
    let a = zeros_from(w, 0);
    if 0 <= a < w.len() {
        w.subrange(a, w.len() as int)
    } else {
        seq!['0']
    }
}

proof fn lemma_dot_from(t: Seq<char>, i: int, k: int)
    requires
        0 <= i <= k <= t.len(),
        k == t.len() || t[k] == '.',
        forall|j: int| i <= j < k ==> t[j] != '.',
    ensures
        dot_from(t, i) == k,
    decreases k - i,
{
    if i < k {
        lemma_dot_from(t, i + 1, k);
    }
}

/// Digits, a point and digits read as those integer and fractional digits;
/// digits alone read as an integer.
pub proof fn lemma_decimal_parts(w: Seq<char>, f: Seq<char>)
    requires
        all_digits(w),
        all_digits(f),
        w.len() > 0,
    ensures
        decimal_parts(w + "."@ + f) == Some((w, f)),
        decimal_parts(w) == Some((w, Seq::<char>::empty())),
{
    reveal_strlit(".");
    let t = w + "."@ + f;
    assert forall|j: int| 0 <= j < w.len() implies t[j] != '.' by {
        assert(t[j] == w[j]);
        assert(is_digit(w[j]));
    }
    lemma_dot_from(t, 0, w.len() as int);
    assert(t.subrange(0, w.len() as int) =~= w);
    assert(t.subrange((w.len() + 1) as int, t.len() as int) =~= f);
    assert forall|j: int| 0 <= j < w.len() implies w[j] != '.' by {
        assert(is_digit(w[j]));
    }
    lemma_dot_from(w, 0, w.len() as int);
    assert(w.subrange(0, w.len() as int) =~= w);
}

/// A percentage as the tool prints it: integer digits and fractional digits,
/// kept as written so that its value is exact.
#[derive(Clone, Debug, PartialEq)]
pub struct Percentage {
    pub whole: String,
    pub fraction: String,
}

impl Percentage {
    pub open spec fn wf(&self) -> bool {
        all_digits(self.whole@) && all_digits(self.fraction@)
    }

    /// The value is `numerator() / denominator()`.
    pub open spec fn numerator(&self) -> nat {
        digits_value(self.whole@ + self.fraction@)
    }

    pub open spec fn denominator(&self) -> nat {
        pow10(self.fraction@.len())
    }

    /// The percentage with the given integer digits and no fraction.
    pub fn whole_number(digits: &str) -> (r: Percentage)
        ensures
            r.whole@ == digits@,
            r.fraction@ == Seq::<char>::empty(),
    {
        Percentage { whole: String::from_str(digits), fraction: String::new() }
    }

    pub fn zero() -> (r: Percentage)
        ensures
            r.whole@ == seq!['0'],
            r.fraction@ == Seq::<char>::empty(),
            r.wf(),
            r.numerator() == 0,
    {
        proof {
            reveal_strlit("0");
        }
        let r = Percentage::whole_number("0");
        assert(r.whole@ + r.fraction@ =~= seq!['0']);
        assert(seq!['0'].drop_last() =~= Seq::<char>::empty());
        let ghost z = seq!['0'];
        assert(z.drop_last() =~= Seq::<char>::empty());
        assert(digits_value(z.drop_last()) == 0);
        assert(z.last() == '0');
        assert(digits_value(z) == 0);
        r
    }

    pub fn hundred() -> (r: Percentage)
        ensures
            r.whole@ == seq!['1', '0', '0'],
            r.fraction@ == Seq::<char>::empty(),
            r.wf(),
            r.numerator() == 100,
            r.denominator() == 1,
    {
        proof {
            reveal_strlit("100");
        }
        let r = Percentage::whole_number("100");
        let ghost s = seq!['1', '0', '0'];
        assert(r.whole@ + r.fraction@ =~= s);
        assert(s.drop_last() =~= seq!['1', '0']);
        assert(s.drop_last().drop_last() =~= seq!['1']);
        assert(s.drop_last().drop_last().drop_last() =~= Seq::<char>::empty());
        assert(digits_value(Seq::<char>::empty()) == 0);
        assert(digits_value(s.drop_last().drop_last()) == 1);
        assert(digits_value(s.drop_last()) == 10);
        assert(digits_value(s) == 100);
        r
    }

    /// Reads a decimal number such as `42`, `42.5`, `42.` or `.5`;
    /// `None` for anything else.
    pub fn parse(t: &str) -> (r: Option<Percentage>)
        ensures
            match decimal_parts(t@) {
                Some((w, f)) => r is Some && r->0.whole@ == w && r->0.fraction@ == f,
                None => r is None,
            },
            r matches Some(p) ==> p.wf(),
    {
        let v = chars_of(t);
        let n = v.len();
        let mut k: usize = 0;
        while k < n && v[k] != '.'
            invariant
                v@ == t@,
                n == t@.len(),
                k <= n,
                dot_from(t@, 0) == dot_from(t@, k as int),
            decreases n - k,
        {
            k += 1;
        }
        assert(k == dot_from(t@, 0));
        let start = if k < n {
            k + 1
        } else {
            n
        };
        let mut ok = k + (n - start) > 0;
        let mut i: usize = 0;
        while i < n
            invariant
                v@ == t@,
                n == t@.len(),
                k <= n,
                start <= n,
                start == (if k < n { k + 1 } else { n as int }),
                i <= n,
                ok ==> forall|j: int| 0 <= j < i && j != k ==> is_digit(#[trigger] t@[j]),
                ok ==> (k + (n - start) > 0),
                !ok ==> decimal_parts(t@) is None,
                k == dot_from(t@, 0),
            decreases n - i,
        {
            if i != k && !digit(v[i]) {
                if ok {
                    proof {
                        if i < k {
                            let w = t@.subrange(0, k as int);
                            assert(w[i as int] == t@[i as int]);
                            assert(!is_digit(w[i as int]));
                            assert(!all_digits(w));
                            assert(w == t@.subrange(0, dot_from(t@, 0)));
                            assert(decimal_parts(t@) is None);
                        } else {
                            let f = t@.subrange(start as int, n as int);
                            assert(f[i - start] == t@[i as int]);
                            assert(!is_digit(f[i - start]));
                            assert(!all_digits(f));
                            assert(f == t@.subrange(dot_from(t@, 0) + 1, t@.len() as int));
                            assert(decimal_parts(t@) is None);
                        }
                    }
                }
                ok = false;
            }
            i += 1;
        }
        if ok {
            let w = slice_of(t, 0, k);
            let f = slice_of(t, start, n);
            assert forall|j: int| 0 <= j < w@.len() implies is_digit(#[trigger] w@[j]) by {
                assert(w@[j] == t@[j]);
            }
            assert forall|j: int| 0 <= j < f@.len() implies is_digit(#[trigger] f@[j]) by {
                assert(f@[j] == t@[start + j]);
            }
            proof {
                if k >= n {
                    assert(f@ =~= Seq::<char>::empty());
                }
            }
            Some(Percentage { whole: w, fraction: f })
        } else {
            None
        }
    }

    /// The integer part, without leading zeros.
    pub fn whole_text(&self) -> (r: String)
        ensures
            r@ == whole_text(self.whole@),
    {
        let w = self.whole.as_str();
        let v = chars_of(w);
        let n = v.len();
        let mut a: usize = 0;
        while a < n && v[a] == '0'
            invariant
                v@ == w@,
                n == w@.len(),
                a <= n,
                zeros_from(w@, 0) == zeros_from(w@, a as int),
            decreases n - a,
        {
            a += 1;
        }
        if a < n {
            slice_of(w, a, n)
        } else {
            proof {
                reveal_strlit("0");
            }
            let r = String::from_str("0");
            assert(r@ =~= seq!['0']);
            r
        }
    }
}

/// One progress report for the user interface.
#[derive(Clone, Debug)]
pub struct DownloadProgress {
    pub url: String,
    pub progress: Percentage,
    pub status: String,
    pub error: Option<String>,
}

/// The status text of a report at percentage `p`.
pub open spec fn downloading_status(p: Percentage) -> Seq<char> {
    "Downloading... "@ + whole_text(p.whole@) + "%"@
}

pub open spec fn is_zero(p: Percentage) -> bool {
    p.whole@ == seq!['0'] && p.fraction@.len() == 0
}

pub open spec fn is_hundred(p: Percentage) -> bool {
    p.whole@ == seq!['1', '0', '0'] && p.fraction@.len() == 0
}

/// `r` is the report that a download of `url` is about to start.
pub open spec fn starting_report(r: DownloadProgress, url: Seq<char>) -> bool {
    r.url@ == url && is_zero(r.progress) && r.status@ == "Starting download..."@ && r.error is None
}

/// `r` reports that the download of `url` stands at `whole.fraction` percent.
pub open spec fn downloading_report(
    r: DownloadProgress,
    url: Seq<char>,
    whole: Seq<char>,
    fraction: Seq<char>,
) -> bool {
    &&& r.url@ == url
    &&& r.progress.whole@ == whole
    &&& r.progress.fraction@ == fraction
    &&& r.status@ == downloading_status(r.progress)
    &&& r.error is None
}

/// `r` is the terminal report of a download of `url` that succeeded.
pub open spec fn completed_report(r: DownloadProgress, url: Seq<char>) -> bool {
    r.url@ == url && is_hundred(r.progress) && r.status@ == "Completed"@ && r.error is None
}

/// `r` is the terminal report of a download of `url` that failed with `message`.
pub open spec fn failed_report(r: DownloadProgress, url: Seq<char>, message: Seq<char>) -> bool {
    &&& r.url@ == url
    &&& is_zero(r.progress)
    &&& r.status@ == "Failed"@
    &&& r.error matches Some(e) && e@ == message
}

impl DownloadProgress {
    /// The report made once the tool is known to be there, before it starts.
    pub fn starting(url: &str) -> (r: DownloadProgress)
        ensures
            starting_report(r, url@),
    {
        DownloadProgress {
            url: String::from_str(url),
            progress: Percentage::zero(),
            status: String::from_str("Starting download..."),
            error: None,
        }
    }

    /// A report at percentage `p` while the tool downloads.
    pub fn downloading(url: &str, p: Percentage) -> (r: DownloadProgress)
        ensures
            downloading_report(r, url@, p.whole@, p.fraction@),
            r.progress == p,
    {
        let mut status = String::from_str("Downloading... ");
        let digits = p.whole_text();
        status.append(digits.as_str());
        status.append("%");
        DownloadProgress { url: String::from_str(url), progress: p, status, error: None }
    }

    /// The terminal report of a download that succeeded.
    pub fn completed(url: &str) -> (r: DownloadProgress)
        ensures
            completed_report(r, url@),
    {
        DownloadProgress {
            url: String::from_str(url),
            progress: Percentage::hundred(),
            status: String::from_str("Completed"),
            error: None,
        }
    }

    /// The terminal report of a download that failed with `message`.
    pub fn failed(url: &str, message: String) -> (r: DownloadProgress)
        ensures
            failed_report(r, url@, message@),
    {
        DownloadProgress {
            url: String::from_str(url),
            progress: Percentage::zero(),
            status: String::from_str("Failed"),
            error: Some(message),
        }
    }
}

} // verus!
