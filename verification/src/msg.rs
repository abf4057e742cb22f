//! The session message codec.
//!
//! The external installer process reports its progress over a
//! newline-delimited text protocol.  Each line has the shape
//! `"<type>: <rest>"`; the five recognised types are `message`,
//! `error`, `prompt`, `finished` and `progress`.  Parsing is total:
//! every line yields either a typed [`UiMessage`] or a [`ParseError`],
//! and never panics.

use vstd::prelude::*;

use crate::config::InstallerOptions;

verus! {

/// One interpreted line of the worker's output stream.
#[derive(Debug, Clone, PartialEq)]
pub enum UiMessage {
    /// `message: <text>` — non-blocking informational text.
    Info(String),
    /// `error: <text>` — non-blocking error text.
    Error(String),
    /// `prompt: <text>` — a yes/no question that expects a written reply.
    Prompt(String),
    /// `finished: <ok|*>, <text>` — the worker's terminal verdict.
    Finished(bool, String),
    /// `progress: <fraction> <text>` — a progress report; the fraction
    /// is floored to a whole percentage.
    Progress(usize, String),
}

/// The mathematical model of a [`UiMessage`]: payloads as character
/// sequences, the percentage as an unbounded integer.
pub enum MessageModel {
    Info { text: Seq<char> },
    Error { text: Seq<char> },
    Prompt { text: Seq<char> },
    Finished { success: bool, text: Seq<char> },
    Progress { percent: int, text: Seq<char> },
}

impl View for UiMessage {
    type V = MessageModel;

    open spec fn view(&self) -> MessageModel {
        match self {
            UiMessage::Info(t) => MessageModel::Info { text: t@ },
            UiMessage::Error(t) => MessageModel::Error { text: t@ },
            UiMessage::Prompt(t) => MessageModel::Prompt { text: t@ },
            UiMessage::Finished(s, t) => MessageModel::Finished { success: *s, text: t@ },
            UiMessage::Progress(p, t) => MessageModel::Progress { percent: *p as int, text: t@ },
        }
    }
}

/// Why a worker line could not be interpreted.  A parse failure is
/// non-fatal: the engine diagnoses and skips the line.
#[derive(Debug, Clone, Copy, PartialEq, Eq, Structural)]
pub enum ParseError {
    /// The line holds no `": "` separator after a type tag.
    MissingType,
    /// The type tag is none of the five recognised ones.
    UnknownType,
    /// A `finished` payload holds no `", "` between state and text.
    MissingFinishedState,
    /// A `progress` payload holds no space between fraction and text.
    MissingProgressSeparator,
    /// A `progress` fraction is not a decimal number.
    InvalidProgressValue,
}

/// The position of the first `i` with `s[i] == c0` and `s[i + 1] == c1`,
/// searching from `i` upward.
pub open spec fn find_two(s: Seq<char>, c0: char, c1: char, i: int) -> Option<int>
    decreases s.len() - i when 0 <= i
{
    if i + 1 >= s.len() {
        None
    } else if s[i] == c0 && s[i + 1] == c1 {
        Some(i)
    } else {
        find_two(s, c0, c1, i + 1)
    }
}

/// The position of the first `i` with `s[i] == c`, searching from `i` upward.
pub open spec fn find_one(s: Seq<char>, c: char, i: int) -> Option<int>
    decreases s.len() - i when 0 <= i
{
    if i >= s.len() {
        None
    } else if s[i] == c {
        Some(i)
    } else {
        find_one(s, c, i + 1)
    }
}

/// A decimal digit: a character whose code point lies between those of
/// `'0'` (48) and `'9'` (57).
pub open spec fn is_digit(c: char) -> bool {
    48 <= c as u32 && c as u32 <= 57
}

/// The value of a decimal digit.
pub open spec fn digit_val(c: char) -> int {
    c as u32 - 48
}

/// Every character of `s` is a decimal digit.
pub open spec fn all_digits(s: Seq<char>) -> bool {
    forall|j: int| 0 <= j < s.len() ==> is_digit(s[j])
}

/// The value of a sequence of decimal digits, most significant first.
pub open spec fn digits_val(s: Seq<char>) -> int
    decreases s.len()
{
    if s.len() == 0 {
        0
    } else {
        digits_val(s.drop_last()) * 10 + digit_val(s.last())
    }
}

/// The progress fractions this codec accepts: one or more digits,
/// optionally followed by a dot and further digits (`"0.5"`, `"1"`,
/// `"0."`).  Anything else — a sign, an exponent, a second dot, a
/// leading dot — is rejected.
pub open spec fn valid_fraction(s: Seq<char>) -> bool {
    match find_one(s, '.', 0) {
        None => s.len() > 0 && all_digits(s),
        Some(i) => i > 0 && all_digits(s.subrange(0, i)) && all_digits(
            s.subrange(i + 1, s.len() as int),
        ),
    }
}

/// `floor(fraction * 100)`, clamped to 100 so that the progress value
/// stays within `[0, 100]`.  For `I.d1 d2 d3…` this is exactly
/// `I * 100 + d1 * 10 + d2`: the percentage is floored, never rounded.
pub open spec fn fraction_percent(s: Seq<char>) -> int {
    let ipart = match find_one(s, '.', 0) {
        None => s,
        Some(i) => s.subrange(0, i),
    };
    let fpart = match find_one(s, '.', 0) {
        None => Seq::<char>::empty(),
        Some(i) => s.subrange(i + 1, s.len() as int),
    };
    let d1 = if fpart.len() >= 1 { digit_val(fpart[0]) } else { 0 };
    let d2 = if fpart.len() >= 2 { digit_val(fpart[1]) } else { 0 };
    let raw = digits_val(ipart) * 100 + d1 * 10 + d2;
    if raw > 100 { 100 } else { raw }
}

/// What [`parse_line`] returns, stated over character sequences: the
/// full interpretation table of the wire protocol.
pub open spec fn parse_line_spec(s: Seq<char>) -> Result<MessageModel, ParseError> {
    match find_two(s, ':', ' ', 0) {
        None => Err(ParseError::MissingType),
        Some(i) => {
            let ty = s.subrange(0, i);
            let rest = s.subrange(i + 2, s.len() as int);
            if ty == "message"@ {
                Ok(MessageModel::Info { text: rest })
            } else if ty == "error"@ {
                Ok(MessageModel::Error { text: rest })
            } else if ty == "prompt"@ {
                Ok(MessageModel::Prompt { text: rest })
            } else if ty == "finished"@ {
                match find_two(rest, ',', ' ', 0) {
                    None => Err(ParseError::MissingFinishedState),
                    Some(j) => Ok(
                        MessageModel::Finished {
                            success: rest.subrange(0, j) == "ok"@,
                            text: rest.subrange(j + 2, rest.len() as int),
                        },
                    ),
                }
            } else if ty == "progress"@ {
                match find_one(rest, ' ', 0) {
                    None => Err(ParseError::MissingProgressSeparator),
                    Some(j) => {
                        let num = rest.subrange(0, j);
                        let text = rest.subrange(j + 1, rest.len() as int);
                        if valid_fraction(num) {
                            Ok(MessageModel::Progress { percent: fraction_percent(num), text })
                        } else {
                            Err(ParseError::InvalidProgressValue)
                        }
                    },
                }
            } else {
                Err(ParseError::UnknownType)
            }
        },
    }
}

/// Character-wise string equality; `==` on `&str` carries no
/// specification, so the comparison is spelled out.
pub fn str_eq(a: &str, b: &str) -> (r: bool)
    ensures
        r == (a@ == b@),
{
    let na = a.unicode_len();
    let nb = b.unicode_len();
    if na != nb {
        return false;
    }
    let mut i: usize = 0;
    while i < na
        invariant
            na == a@.len(),
            na == b@.len(),
            i <= na,
            forall|j: int| 0 <= j < i ==> a@[j] == b@[j],
        decreases na - i,
    {
        if a.get_char(i) != b.get_char(i) {
            return false;
        }
        i += 1;
    }
    proof {
        assert(a@ =~= b@);
    }
    true
}

/// First occurrence of the two-character separator `c0 c1` in `s`.
fn find_two_exec(s: &str, c0: char, c1: char) -> (r: Option<usize>)
    ensures
        match r {
            Some(i) => find_two(s@, c0, c1, 0) == Some(i as int) && i + 1 < s@.len(),
            None => find_two(s@, c0, c1, 0) is None,
        },
{
    let n = s.unicode_len();
    if n < 2 {
        return None;
    }
    let mut i: usize = 0;
    while i + 1 < n
        invariant
            n == s@.len(),
            i < n,
            find_two(s@, c0, c1, 0) == find_two(s@, c0, c1, i as int),
        decreases n - i,
    {
        if s.get_char(i) == c0 && s.get_char(i + 1) == c1 {
            return Some(i);
        }
        i += 1;
    }
    None
}

/// A sequence of digits has a non-negative value.
proof fn lemma_digits_val_nonneg(s: Seq<char>)
    requires
        all_digits(s),
    ensures
        digits_val(s) >= 0,
    decreases s.len(),
{
    if s.len() > 0 {
        assert(all_digits(s.drop_last()));
        lemma_digits_val_nonneg(s.drop_last());
    }
}

/// Parses a progress fraction and turns it into a whole percentage,
/// floored and clamped to 100.
fn parse_fraction_percent(num: &str) -> (r: Option<usize>)
    ensures
        r is Some <==> valid_fraction(num@),
        r matches Some(p) ==> p == fraction_percent(num@),
{
    let n = num.unicode_len();
    let dot = find_one_exec(num, '.');
    let int_end = match dot {
        Some(d) => d,
        None => n,
    };
    if int_end == 0 {
        // Either the string is empty or it starts with the dot; both
        // fall outside the accepted grammar.
        proof {
            if dot is None {
                assert(num@.subrange(0, 0 as int) =~= num@);
            }
        }
        return None;
    }
    let ghost ipart = match find_one(num@, '.', 0) {
        None => num@,
        Some(i) => num@.subrange(0, i),
    };
    proof {
        if dot is None {
            assert(num@.subrange(0, int_end as int) =~= ipart);
        }
    }
    // The integer part, saturated at 101: any value beyond that is
    // clamped to 100 percent anyway.
    let mut acc: usize = 0;
    let mut k: usize = 0;
    while k < int_end
        invariant
            int_end <= num@.len(),
            k <= int_end,
            0 < int_end,
            find_one(num@, '.', 0) matches Some(i) ==> int_end as int == i,
            find_one(num@, '.', 0) is None ==> int_end as int == num@.len(),
            ipart == num@.subrange(0, int_end as int),
            all_digits(num@.subrange(0, k as int)),
            acc == if digits_val(num@.subrange(0, k as int)) > 101 {
                101int
            } else {
                digits_val(num@.subrange(0, k as int))
            },
        decreases int_end - k,
    {
        let c = num.get_char(k);
        let v = c as u32;
        if v < 48 || v > 57 {
            proof {
                assert(num@.subrange(0, int_end as int)[k as int] == num@[k as int]);
                assert(!is_digit(num@[k as int]));
            }
            return None;
        }
        let d = (v - 48) as usize;
        proof {
            assert(num@.subrange(0, (k + 1) as int).drop_last() =~= num@.subrange(0, k as int));
            assert(num@.subrange(0, (k + 1) as int).last() == num@[k as int]);
            lemma_digits_val_nonneg(num@.subrange(0, k as int));
        }
        acc = if acc >= 101 {
            101
        } else {
            let t = acc * 10 + d;
            if t > 101 {
                101
            } else {
                t
            }
        };
        k += 1;
    }
    proof {
        assert(num@.subrange(0, int_end as int) == ipart);
    }
    // The fractional part: all digits, of which the first two carry
    // into the percentage.
    let mut d1: usize = 0;
    let mut d2: usize = 0;
    let ghost fpart = match find_one(num@, '.', 0) {
        None => Seq::<char>::empty(),
        Some(i) => num@.subrange(i + 1, num@.len() as int),
    };
    if let Some(dpos) = dot {
        let mut k: usize = dpos + 1;
        while k < n
            invariant
                n == num@.len(),
                dpos < n,
                dpos + 1 <= k <= n,
                find_one(num@, '.', 0) == Some(dpos as int),
                fpart == num@.subrange(dpos + 1, n as int),
                forall|j: int| dpos + 1 <= j < k ==> is_digit(num@[j]),
                d1 == if k > dpos + 1 { digit_val(num@[dpos + 1]) } else { 0int },
                d2 == if k > dpos + 2 { digit_val(num@[dpos + 2]) } else { 0int },
            decreases n - k,
        {
            let c = num.get_char(k);
            let v = c as u32;
            if v < 48 || v > 57 {
                proof {
                    assert(num@.subrange(dpos + 1, n as int)[k - dpos - 1] == num@[k as int]);
                    assert(!is_digit(num@[k as int]));
                }
                return None;
            }
            if k == dpos + 1 {
                d1 = (v - 48) as usize;
            } else if k == dpos + 2 {
                d2 = (v - 48) as usize;
            }
            k += 1;
        }
        proof {
            assert(forall|j: int| 0 <= j < fpart.len() ==> fpart[j] == num@[dpos + 1 + j]);
        }
    }
    proof {
        lemma_digits_val_nonneg(ipart);
        assert(valid_fraction(num@));
    }
    let raw = if acc >= 101 {
        10100
    } else {
        acc * 100 + d1 * 10 + d2
    };
    let p = if raw > 100 {
        100
    } else {
        raw
    };
    Some(p)
}

/// First occurrence of the character `c` in `s`.
fn find_one_exec(s: &str, c: char) -> (r: Option<usize>)
    ensures
        match r {
            Some(i) => find_one(s@, c, 0) == Some(i as int) && i < s@.len(),
            None => find_one(s@, c, 0) is None,
        },
{
    let n = s.unicode_len();
    let mut i: usize = 0;
    while i < n
        invariant
            n == s@.len(),
            i <= n,
            find_one(s@, c, 0) == find_one(s@, c, i as int),
        decreases n - i,
    {
        if s.get_char(i) == c {
            return Some(i);
        }
        i += 1;
    }
    None
}

/// Parses one line of the worker's output stream.
///
/// This is a total function: for every input it returns either the
/// interpreted message or the reason the line was rejected, exactly as
/// [`parse_line_spec`] states, and never panics.
pub fn parse_line(s: &str) -> (r: Result<UiMessage, ParseError>)
    ensures
        match r {
            Ok(m) => parse_line_spec(s@) == Ok::<MessageModel, ParseError>(m@),
            Err(e) => parse_line_spec(s@) == Err::<MessageModel, ParseError>(e),
        },
{
    let n = s.unicode_len();
    let i = match find_two_exec(s, ':', ' ') {
        Some(i) => i,
        None => {
            return Err(ParseError::MissingType);
        },
    };
    let ty = s.substring_char(0, i);
    let rest = s.substring_char(i + 2, n);
    if str_eq(ty, "message") {
        Ok(UiMessage::Info(rest.to_owned()))
    } else if str_eq(ty, "error") {
        Ok(UiMessage::Error(rest.to_owned()))
    } else if str_eq(ty, "prompt") {
        Ok(UiMessage::Prompt(rest.to_owned()))
    } else if str_eq(ty, "finished") {
        let m = rest.unicode_len();
        match find_two_exec(rest, ',', ' ') {
            None => Err(ParseError::MissingFinishedState),
            Some(j) => {
                let statepart = rest.substring_char(0, j);
                let text = rest.substring_char(j + 2, m);
                Ok(UiMessage::Finished(str_eq(statepart, "ok"), text.to_owned()))
            },
        }
    } else if str_eq(ty, "progress") {
        let m = rest.unicode_len();
        match find_one_exec(rest, ' ') {
            None => Err(ParseError::MissingProgressSeparator),
            Some(j) => {
                let num = rest.substring_char(0, j);
                let text = rest.substring_char(j + 1, m);
                match parse_fraction_percent(num) {
                    Some(p) => Ok(UiMessage::Progress(p, text.to_owned())),
                    None => Err(ParseError::InvalidProgressValue),
                }
            },
        }
    } else {
        Err(ParseError::UnknownType)
    }
}

impl ParseError {
    /// A diagnostic text for the skipped line, suitable for logging.
    pub fn message(&self) -> (r: String)
        ensures
            r@ == match self {
                ParseError::MissingType => "invalid message: no type"@,
                ParseError::UnknownType => "invalid message type"@,
                ParseError::MissingFinishedState => "invalid message: no state"@,
                ParseError::MissingProgressSeparator => "invalid progress message"@,
                ParseError::InvalidProgressValue => "invalid progress value"@,
            },
    {
        match self {
            ParseError::MissingType => "invalid message: no type".to_owned(),
            ParseError::UnknownType => "invalid message type".to_owned(),
            ParseError::MissingFinishedState => "invalid message: no state".to_owned(),
            ParseError::MissingProgressSeparator => "invalid progress message".to_owned(),
            ParseError::InvalidProgressValue => "invalid progress value".to_owned(),
        }
    }
}

/// Lexicographic order on character sequences by code point, read from
/// position `i` on: a proper prefix comes first, the first differing
/// character decides otherwise.
pub open spec fn seq_le_from(a: Seq<char>, b: Seq<char>, i: int) -> bool
    decreases a.len() - i when 0 <= i
{
    if i >= a.len() {
        true
    } else if i >= b.len() {
        false
    } else if (a[i] as u32) < (b[i] as u32) {
        true
    } else if (a[i] as u32) > (b[i] as u32) {
        false
    } else {
        seq_le_from(a, b, i + 1)
    }
}

/// Lexicographic order on character sequences by code point.
pub open spec fn seq_le(a: Seq<char>, b: Seq<char>) -> bool {
    seq_le_from(a, b, 0)
}

proof fn lemma_seq_le_from_total(a: Seq<char>, b: Seq<char>, i: int)
    requires
        0 <= i,
    ensures
        seq_le_from(a, b, i) || seq_le_from(b, a, i),
    decreases a.len() - i,
{
    if i < a.len() && i < b.len() && (a[i] as u32) == (b[i] as u32) {
        lemma_seq_le_from_total(a, b, i + 1);
    }
}

/// The order is total: two sequences always compare at least one way.
pub proof fn lemma_seq_le_total(a: Seq<char>, b: Seq<char>)
    ensures
        seq_le(a, b) || seq_le(b, a),
{
    lemma_seq_le_from_total(a, b, 0);
}

/// Character-wise lexicographic comparison.
pub fn str_le(a: &str, b: &str) -> (r: bool)
    ensures
        r == seq_le(a@, b@),
{
    let na = a.unicode_len();
    let nb = b.unicode_len();
    let mut i: usize = 0;
    while i < na
        invariant
            na == a@.len(),
            nb == b@.len(),
            i <= na,
            seq_le(a@, b@) == seq_le_from(a@, b@, i as int),
        decreases na - i,
    {
        if i >= nb {
            return false;
        }
        let ca = a.get_char(i) as u32;
        let cb = b.get_char(i) as u32;
        if ca < cb {
            return true;
        }
        if ca > cb {
            return false;
        }
        i += 1;
    }
    true
}

/// The character of one decimal digit value.
pub open spec fn digit_char(d: int) -> char {
    if d == 0 {
        '0'
    } else if d == 1 {
        '1'
    } else if d == 2 {
        '2'
    } else if d == 3 {
        '3'
    } else if d == 4 {
        '4'
    } else if d == 5 {
        '5'
    } else if d == 6 {
        '6'
    } else if d == 7 {
        '7'
    } else if d == 8 {
        '8'
    } else {
        '9'
    }
}

/// The canonical decimal representation of a number, most significant
/// digit first, without leading zeroes.
pub open spec fn dec_rep(n: nat) -> Seq<char>
    decreases n,
{
    if n < 10 {
        seq![digit_char(n as int)]
    } else {
        dec_rep(n / 10) + seq![digit_char((n % 10) as int)]
    }
}

/// The one-character string of one decimal digit value.
fn digit_str(d: u64) -> (r: &'static str)
    requires
        d < 10,
    ensures
        r@ == seq![digit_char(d as int)],
{
    proof {
        reveal_strlit("0");
        reveal_strlit("1");
        reveal_strlit("2");
        reveal_strlit("3");
        reveal_strlit("4");
        reveal_strlit("5");
        reveal_strlit("6");
        reveal_strlit("7");
        reveal_strlit("8");
        reveal_strlit("9");
    }
    let r = match d {
        0 => "0",
        1 => "1",
        2 => "2",
        3 => "3",
        4 => "4",
        5 => "5",
        6 => "6",
        7 => "7",
        8 => "8",
        _ => "9",
    };
    proof {
        assert(r@ =~= seq![digit_char(d as int)]);
    }
    r
}

/// The decimal representation of a number.
pub fn u64_to_string(n: u64) -> (r: String)
    ensures
        r@ == dec_rep(n as nat),
    decreases n,
{
    let d = n % 10;
    let q = n / 10;
    let ds = digit_str(d);
    if q == 0 {
        ds.to_owned()
    } else {
        let mut s = u64_to_string(q);
        s.append(ds);
        s
    }
}

/// What the JSON encoder makes of a character sequence: the quoted,
/// escaped string literal.  The result depends on the characters alone.
pub uninterp spec fn json_quoted(s: Seq<char>) -> Seq<char>;

/// Relies on `serde_json::to_string` for `str`: it returns the JSON
/// string literal of its argument — quoted and escaped — and, per its
/// documentation, serializing a string never fails.
#[verifier::external_body]
fn json_quote(s: &str) -> (r: String)
    ensures
        r@ == json_quoted(s@),
{
    match serde_json::to_string(s) {
        Ok(r) => r,
        // Unreachable: only a failing Serialize impl or a non-string
        // map key can make to_string fail, and str has neither.
        Err(_) => String::new(),
    }
}

/// The single line written back to the worker for an answered prompt:
/// the fixed acknowledgement token for "yes", an empty line for "no".
pub fn prompt_reply(yes: bool) -> (r: String)
    ensures
        yes ==> r@ == "ok"@,
        !yes ==> r@ == Seq::<char>::empty(),
{
    if yes {
        "ok".to_owned()
    } else {
        String::new()
    }
}

/// The one line of structured data the engine writes to the worker
/// immediately after its streams are available: the whole aggregate
/// configuration as a JSON object.
pub open spec fn config_line(c: InstallerOptions) -> Seq<char> {
    "{\"autoreboot\":"@ + (if c.autoreboot {
        "true"@
    } else {
        "false"@
    }) + ",\"bootdisk\":"@ + json_quoted(c.bootdisk.disk.path@) + ",\"country\":"@ + json_quoted(
        c.timezone.country@,
    ) + ",\"timezone\":"@ + json_quoted(c.timezone.timezone@) + ",\"keymap\":"@ + json_quoted(
        c.timezone.kb_layout@,
    ) + ",\"password\":"@ + json_quoted(c.password.root_password@) + ",\"mailto\":"@ + json_quoted(
        c.password.email@,
    ) + ",\"mngmt_nic\":"@ + json_quoted(c.network.ifname@) + ",\"hostname\":"@ + json_quoted(
        c.network.fqdn@,
    ) + ",\"cidr\":"@ + json_quoted(
        c.network.address.addr.text@ + "/"@ + dec_rep(c.network.address.mask as nat),
    ) + ",\"gateway\":"@ + json_quoted(c.network.gateway.text@) + ",\"dns\":"@ + json_quoted(
        c.network.dns_server.text@,
    ) + "}"@
}

/// Serializes the aggregate configuration as a single line of JSON,
/// exactly as [`config_line`] states it.
pub fn format_configuration(c: &InstallerOptions) -> (r: String)
    ensures
        r@ == config_line(*c),
{
    let mut s = String::new();
    s.append("{\"autoreboot\":");
    s.append(if c.autoreboot { "true" } else { "false" });
    s.append(",\"bootdisk\":");
    let q = json_quote(c.bootdisk.disk.path.as_str());
    s.append(q.as_str());
    s.append(",\"country\":");
    let q = json_quote(c.timezone.country.as_str());
    s.append(q.as_str());
    s.append(",\"timezone\":");
    let q = json_quote(c.timezone.timezone.as_str());
    s.append(q.as_str());
    s.append(",\"keymap\":");
    let q = json_quote(c.timezone.kb_layout.as_str());
    s.append(q.as_str());
    s.append(",\"password\":");
    let q = json_quote(c.password.root_password.as_str());
    s.append(q.as_str());
    s.append(",\"mailto\":");
    let q = json_quote(c.password.email.as_str());
    s.append(q.as_str());
    s.append(",\"mngmt_nic\":");
    let q = json_quote(c.network.ifname.as_str());
    s.append(q.as_str());
    s.append(",\"hostname\":");
    let q = json_quote(c.network.fqdn.as_str());
    s.append(q.as_str());
    s.append(",\"cidr\":");
    let mut cidr = c.network.address.addr.text.clone();
    cidr.append("/");
    let mask = u64_to_string(c.network.address.mask as u64);
    cidr.append(mask.as_str());
    let q = json_quote(cidr.as_str());
    s.append(q.as_str());
    s.append(",\"gateway\":");
    let q = json_quote(c.network.gateway.text.as_str());
    s.append(q.as_str());
    s.append(",\"dns\":");
    let q = json_quote(c.network.dns_server.text.as_str());
    s.append(q.as_str());
    s.append("}");
    proof {
        assert(s@ =~= config_line(*c));
    }
    s
}

} // verus!
