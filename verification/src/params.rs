//! The invocation arguments of one export.

use vstd::prelude::*;
use vstd::string::*;

verus! {

/// The batch size used where the caller gives none.
pub const DEFAULT_BATCH_SIZE: usize = 5000;

/// What the caller asks for: where to connect, what to run, how many rows to
/// fetch at a time and how to name the file.
pub struct Params {
    /// The ODBC connection string.
    pub conn: String,
    /// The SQL text of the one query.
    pub query: String,
    /// Rows per fetch; `None` leaves the choice to the exporter.
    pub bach_size: Option<usize>,
    /// The stem of the output file; `None` asks for a generated one.
    pub fname: Option<String>,
}

/// Mathematical model of [`Params`].
pub struct ParamsView {
    pub conn: Seq<char>,
    pub query: Seq<char>,
    pub bach_size: Option<usize>,
    pub fname: Option<Seq<char>>,
}

impl View for Params {
    type V = ParamsView;

    open spec fn view(&self) -> ParamsView {
        ParamsView {
            conn: self.conn@,
            query: self.query@,
            bach_size: self.bach_size,
            fname: match self.fname {
                Some(name) => Some(name@),
                None => None,
            },
        }
    }
}

/// One of the characters `0` to `9`.
pub open spec fn is_digit(c: char) -> bool {
    '0' <= c <= '9'
}

/// The number that a decimal digit stands for.
pub open spec fn digit_value(c: char) -> nat {
    (c as u32 - '0' as u32) as nat
}

/// The number that a sequence of decimal digits stands for; leading zeros
/// do not count.
pub open spec fn decimal_value(digits: Seq<char>) -> nat
    decreases digits.len(),
{
    if digits.len() == 0 {
        0
    } else {
        10 * decimal_value(digits.drop_last()) + digit_value(digits.last())
    }
}

/// `text` without one leading plus sign.
pub open spec fn unsigned_part(text: Seq<char>) -> Seq<char> {
    if text.len() > 0 && text[0] == '+' {
        text.skip(1)
    } else {
        text
    }
}

/// Every character of `digits` is a decimal digit.
pub open spec fn all_digits(digits: Seq<char>) -> bool {
    forall|i: int| 0 <= i < digits.len() ==> is_digit(#[trigger] digits[i])
}

/// The batch size that `text` asks for: a positive number that fits the
/// machine word, written as decimal digits after an optional plus sign.
/// Anything else asks for none.
pub open spec fn batch_size_of(text: Seq<char>) -> Option<usize> {
    let digits = unsigned_part(text);
    if digits.len() > 0 && all_digits(digits) && 0 < decimal_value(digits) <= usize::MAX {
        Some(decimal_value(digits) as usize)
    } else {
        None
    }
}

/// The parameters that an argument list of at least two items stands for.
pub open spec fn params_of(args: Seq<Seq<char>>) -> ParamsView
    recommends
        args.len() >= 2,
{
    ParamsView {
        conn: args[0],
        query: args[1],
        bach_size: if args.len() > 2 {
            batch_size_of(args[2])
        } else {
            None
        },
        fname: if args.len() > 3 {
            Some(args[3])
        } else {
            None
        },
    }
}

/// A prefix of a digit sequence stands for a number no larger than the
/// whole sequence does.
proof fn lemma_decimal_value_prefix(digits: Seq<char>, k: int)
    requires
        0 <= k <= digits.len(),
    ensures
        decimal_value(digits.take(k)) <= decimal_value(digits),
    decreases digits.len() - k,
{
    if k < digits.len() {
        let longer = digits.take(k + 1);
        assert(longer.drop_last() =~= digits.take(k));
        lemma_decimal_value_prefix(digits, k + 1);
    } else {
        assert(digits.take(k) =~= digits);
    }
}

/// Reads a batch size from its text form.
pub fn parse_batch_size(text: &str) -> (size: Option<usize>)
    ensures
        size == batch_size_of(text@),
{
    let ghost digits = unsigned_part(text@);
    if !text.is_ascii() {
        proof {
            // A character beyond ASCII is neither a sign nor a digit.
            let bad = choose|i: int| 0 <= i < text@.len() && !('\0' <= #[trigger] text@[i] <= '\u{7f}');
            if text@[0] == '+' {
                assert(digits[bad - 1] == text@[bad]);
            }
        }
        return None;
    }
    let bytes = text.as_bytes();
    proof {
        is_ascii_spec_bytes(text);
    }
    let n = bytes.len();
    let start: usize = if n > 0 && bytes[0] == 0x2b {
        1
    } else {
        0
    };
    if start == n {
        return None;
    }
    let mut value: usize = 0;
    let mut i: usize = start;
    while i < n
        invariant
            start <= i <= n,
            n == text@.len(),
            n == bytes@.len(),
            digits == unsigned_part(text@),
            digits == text@.skip(start as int),
            forall|k: int| 0 <= k < n ==> bytes@[k] == #[trigger] text@[k] as u8,
            forall|k: int| 0 <= k < n ==> '\0' <= #[trigger] text@[k] <= '\u{7f}',
            all_digits(digits.take(i - start)),
            value == decimal_value(digits.take(i - start)),
        decreases n - i,
    {
        let b = bytes[i];
        let ghost c = text@[i as int];
        assert(digits[i - start] == c);
        if b < 0x30 || b > 0x39 {
            return None;
        }
        let d: usize = (b - 0x30) as usize;
        proof {
            let upto = digits.take(i - start + 1);
            assert(upto.drop_last() =~= digits.take(i - start));
            lemma_decimal_value_prefix(digits, i - start + 1);
        }
        // Digits that follow can only make the number larger: once it has
        // left the machine word it stays out.
        match value.checked_mul(10) {
            None => {
                return None;
            },
            Some(tens) => match tens.checked_add(d) {
                None => {
                    return None;
                },
                Some(sum) => {
                    value = sum;
                },
            },
        }
        i += 1;
    }
    assert(digits.take(n - start) =~= digits);
    if value == 0 {
        None
    } else {
        Some(value)
    }
}

impl Params {
    /// Reads the positional arguments: connection string, query, then
    /// optionally the batch size and the output name. Fewer than two
    /// arguments are refused. A batch size that cannot be read is not an
    /// error: it counts as not given.
    pub fn new(args: &[String]) -> (r: Result<Params, &str>)
        ensures
            match r {
                Ok(params) => args@.len() >= 2 && params@ == params_of(args.deep_view()),
                Err(reason) => args@.len() < 2 && reason@ == "Not enough arguments!"@,
            },
    {
        if args.len() < 2 {
            return Err("Not enough arguments!");
        }
        let conn = args[0].clone();
        let query = args[1].clone();
        let bach_size = if args.len() > 2 {
            parse_batch_size(args[2].as_str())
        } else {
            None
        };
        let fname = if args.len() > 3 {
            Some(args[3].clone())
        } else {
            None
        };
        Ok(Params { conn, query, bach_size, fname })
    }
}

} // verus!
