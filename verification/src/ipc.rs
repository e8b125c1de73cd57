//! The control-channel command set and its newline-delimited JSON frame
//! codec, together with the parsing of the command-line client's arguments.

use vstd::prelude::*;

use crate::text::{push_json_escaped, push_u32_dec, spec_dec, spec_json_escape, to_char_vec};

verus! {

/// A command received over the control socket, one JSON frame per line.
#[derive(Debug, PartialEq, Eq)]
pub enum DaemonActions {
    CloseNotification(u32),
    OpenHistory,
    CloseHistory,
    ToggleHistory,
    ActionInvoked(u32, String),
    ReplySend(u32, String),
    ReplyClose(u32),
}

/// The frame written for a command: the JSON text of a tagged variant, with
/// no whitespace, string values JSON-escaped.
pub open spec fn spec_frame(a: DaemonActions) -> Seq<char> {
    spec_frame_of_view(a@)
}

/// Writes the frame for a command.
pub fn build_frame(a: &DaemonActions) -> (r: String)
    ensures
        r@ == spec_frame(*a),
{
    let mut out = String::new();
    match a {
        DaemonActions::CloseNotification(id) => {
            out.append("{");
            out.append("\"CloseNotification\"");
            out.append(":");
            push_u32_dec(&mut out, *id);
            out.append("}");
        },
        DaemonActions::OpenHistory => {
            out.append("\"OpenHistory\"");
        },
        DaemonActions::CloseHistory => {
            out.append("\"CloseHistory\"");
        },
        DaemonActions::ToggleHistory => {
            out.append("\"ToggleHistory\"");
        },
        DaemonActions::ActionInvoked(id, s) => {
            out.append("{");
            out.append("\"ActionInvoked\"");
            out.append(":[");
            push_u32_dec(&mut out, *id);
            out.append(",\"");
            push_json_escaped(&mut out, s.as_str());
            out.append("\"]}");
        },
        DaemonActions::ReplySend(id, s) => {
            out.append("{");
            out.append("\"ReplySend\"");
            out.append(":[");
            push_u32_dec(&mut out, *id);
            out.append(",\"");
            push_json_escaped(&mut out, s.as_str());
            out.append("\"]}");
        },
        DaemonActions::ReplyClose(id) => {
            out.append("{");
            out.append("\"ReplyClose\"");
            out.append(":");
            push_u32_dec(&mut out, *id);
            out.append("}");
        },
    }
    proof {
        assert(out@ =~= spec_frame(*a));
    }
    out
}

/// A decimal digit.
pub open spec fn is_digit(c: char) -> bool {
    48 <= c as u32 && c as u32 <= 57
}

/// Every character of `s` is a decimal digit.
pub open spec fn all_digits(s: Seq<char>) -> bool {
    forall|i: int| 0 <= i < s.len() ==> is_digit(#[trigger] s[i])
}

/// The numeric value of a digit string, most significant digit first.
pub open spec fn dec_val(s: Seq<char>) -> int
    decreases s.len(),
{
    if s.len() == 0 {
        0
    } else {
        dec_val(s.drop_last()) * 10 + ((s.last() as u32) as int - 48)
    }
}

/// The length of the run of digits in `s` starting at `from`.
pub open spec fn digits_prefix_len(s: Seq<char>, from: int) -> int
    decreases s.len() - from,
{
    if from < 0 || from >= s.len() || !is_digit(s[from]) {
        0
    } else {
        1 + digits_prefix_len(s, from + 1)
    }
}

/// A digit string that JSON accepts as a number: non-empty, and without a
/// leading zero unless it is exactly zero.
pub open spec fn is_canon_digits(s: Seq<char>) -> bool {
    s.len() >= 1 && all_digits(s) && (s.len() == 1 || s[0] != '0')
}

/// The mathematical value of a command: string payloads as character
/// sequences.
pub enum DaemonActionView {
    CloseNotification(u32),
    OpenHistory,
    CloseHistory,
    ToggleHistory,
    ActionInvoked(u32, Seq<char>),
    ReplySend(u32, Seq<char>),
    ReplyClose(u32),
}

impl View for DaemonActions {
    type V = DaemonActionView;

    open spec fn view(&self) -> DaemonActionView {
        match self {
            DaemonActions::CloseNotification(id) => DaemonActionView::CloseNotification(*id),
            DaemonActions::OpenHistory => DaemonActionView::OpenHistory,
            DaemonActions::CloseHistory => DaemonActionView::CloseHistory,
            DaemonActions::ToggleHistory => DaemonActionView::ToggleHistory,
            DaemonActions::ActionInvoked(id, s) => DaemonActionView::ActionInvoked(*id, s@),
            DaemonActions::ReplySend(id, s) => DaemonActionView::ReplySend(*id, s@),
            DaemonActions::ReplyClose(id) => DaemonActionView::ReplyClose(*id),
        }
    }
}

pub open spec fn opt_action_view(o: Option<DaemonActions>) -> Option<DaemonActionView> {
    match o {
        Some(a) => Some(a@),
        None => None,
    }
}

/// The run of digits in `cs` starting at `from`.
fn digit_run(cs: &Vec<char>, from: usize) -> (d: usize)
    requires
        from <= cs@.len(),
    ensures
        from + d <= cs@.len(),
        d as int == digits_prefix_len(cs@, from as int),
        forall|k: int| from <= k < from + d ==> is_digit(#[trigger] cs@[k]),
{
    let n = cs.len();
    let mut d: usize = 0;
    loop
        invariant
            n == cs@.len(),
            from + d <= n,
            forall|k: int| from <= k < from + d ==> is_digit(#[trigger] cs@[k]),
        ensures
            from + d <= cs@.len(),
            forall|k: int| from <= k < from + d ==> is_digit(#[trigger] cs@[k]),
            from + d == cs@.len() || !is_digit(cs@[from + d]),
        decreases cs@.len() - from - d,
    {
        if from + d >= n {
            break ;
        }
        let c = cs[from + d];
        let v = c as u32;
        if !(48 <= v && v <= 57) {
            proof {
                assert(!is_digit(cs@[from + d]));
            }
            break ;
        }
        proof {
            assert(is_digit(cs@[from + d]));
        }
        d = d + 1;
    }
    proof {
        lemma_digit_run_len(cs@, from as int, d as int);
    }
    d
}

/// A maximal digit run has exactly the length `digits_prefix_len` gives.
proof fn lemma_digit_run_len(s: Seq<char>, from: int, d: int)
    requires
        0 <= from,
        from + d <= s.len(),
        0 <= d,
        forall|k: int| from <= k < from + d ==> is_digit(#[trigger] s[k]),
        from + d == s.len() || !is_digit(s[from + d]),
    ensures
        digits_prefix_len(s, from) == d,
    decreases d,
{
    if d == 0 {
    } else {
        lemma_digit_run_len(s, from + 1, d - 1);
    }
}

/// The value of a digit string is never negative.
proof fn lemma_dec_val_nonneg(s: Seq<char>)
    requires
        all_digits(s),
    ensures
        dec_val(s) >= 0,
    decreases s.len(),
{
    if s.len() > 0 {
        assert(all_digits(s.drop_last()));
        lemma_dec_val_nonneg(s.drop_last());
    }
}

/// A longer digit prefix never has a smaller value.
proof fn lemma_dec_val_monotone(s: Seq<char>, i: int, j: int)
    requires
        all_digits(s),
        0 <= i <= j <= s.len(),
    ensures
        dec_val(s.take(i)) <= dec_val(s.take(j)),
    decreases j - i,
{
    if i < j {
        lemma_dec_val_monotone(s, i, j - 1);
        assert(s.take(j).drop_last() =~= s.take(j - 1));
        assert(all_digits(s.take(j - 1)));
        lemma_dec_val_nonneg(s.take(j - 1));
        assert(is_digit(s[j - 1]));
    }
}

/// The value of the digit run of length `d` at `from`, unless it does not
/// fit a `u32`.
fn digits_value(cs: &Vec<char>, from: usize, d: usize) -> (r: Option<u32>)
    requires
        from + d <= cs@.len(),
        forall|k: int| from <= k < from + d ==> is_digit(#[trigger] cs@[k]),
    ensures
        ({
            let ds = cs@.subrange(from as int, from + d);
            match r {
                Some(v) => v as int == dec_val(ds) && dec_val(ds) <= u32::MAX,
                None => dec_val(ds) > u32::MAX,
            }
        }),
{
    let ghost ds = cs@.subrange(from as int, from + d);
    proof {
        assert(all_digits(ds));
    }
    let n = cs.len();
    let mut acc: u32 = 0;
    let mut i: usize = 0;
    while i < d
        invariant
            n == cs@.len(),
            from + d <= n,
            forall|k: int| from <= k < from + d ==> is_digit(#[trigger] cs@[k]),
            ds == cs@.subrange(from as int, from + d),
            all_digits(ds),
            i <= d,
            acc as int == dec_val(ds.take(i as int)),
        decreases d - i,
    {
        let c = cs[from + i];
        let dv: u32 = (c as u32) - 48;
        proof {
            assert(ds[i as int] == cs@[from + i]);
        }
        if acc > (u32::MAX - dv) / 10 {
            proof {
                assert(ds.take(i as int + 1).drop_last() =~= ds.take(i as int));
                assert(ds.take(i as int + 1).last() == ds[i as int]);
                assert(dec_val(ds.take(i as int + 1)) > u32::MAX);
                lemma_dec_val_monotone(ds, i as int + 1, ds.len() as int);
                assert(ds.take(ds.len() as int) =~= ds);
            }
            return None;
        }
        acc = acc * 10 + dv;
        i = i + 1;
        proof {
            assert(ds.take(i as int).drop_last() =~= ds.take(i as int - 1));
            assert(ds.take(i as int).last() == ds[i as int - 1]);
        }
    }
    proof {
        assert(ds.take(d as int) =~= ds);
    }
    Some(acc)
}

/// The decimal rendering of a non-negative integer is a canonical digit
/// string and denotes the integer itself.
proof fn lemma_dec_digits(n: int)
    requires
        0 <= n,
    ensures
        all_digits(spec_dec(n)),
        spec_dec(n).len() >= 1,
        dec_val(spec_dec(n)) == n,
        n >= 1 ==> spec_dec(n)[0] != '0',
        is_canon_digits(spec_dec(n)),
        n < 10 <==> spec_dec(n).len() == 1,
    decreases n,
{
    if n < 10 {
        let c = crate::text::spec_digit(n);
        assert(c as u32 == 48 + n);
        assert(spec_dec(n) =~= seq![c]);
        assert(spec_dec(n).drop_last() =~= Seq::<char>::empty());
        assert(spec_dec(n).last() == c);
        assert(dec_val(Seq::<char>::empty()) == 0);
        assert(dec_val(spec_dec(n)) == dec_val(spec_dec(n).drop_last()) * 10 + ((c as u32) as int
            - 48));
        assert(dec_val(spec_dec(n)) == n);
    } else {
        lemma_dec_digits(n / 10);
        let c = crate::text::spec_digit(n % 10);
        assert(c as u32 == 48 + n % 10);
        assert(spec_dec(n) == spec_dec(n / 10).push(c));
        assert(spec_dec(n).drop_last() =~= spec_dec(n / 10));
        assert(spec_dec(n).last() == c);
        assert(dec_val(spec_dec(n)) == dec_val(spec_dec(n / 10)) * 10 + (n % 10));
        assert(forall|i: int|
            0 <= i < spec_dec(n).len() ==> is_digit(#[trigger] spec_dec(n)[i]));
        assert(spec_dec(n)[0] == spec_dec(n / 10)[0]);
    }
}

/// Expanding character by character can also be read off the front.
proof fn lemma_expand_head(f: spec_fn(char) -> Seq<char>, s: Seq<char>, i: int)
    requires
        1 <= i <= s.len(),
    ensures
        crate::text::expand_prefix(f, s, i) == f(s[0]) + crate::text::expand_prefix(
            f,
            s.skip(1),
            i - 1,
        ),
    decreases i,
{
    if i == 1 {
        assert(crate::text::expand_prefix(f, s, 0) == Seq::<char>::empty());
        assert(crate::text::expand_prefix(f, s, 1) == crate::text::expand_prefix(f, s, 0) + f(
            s[0],
        ));
        assert(crate::text::expand_prefix(f, s.skip(1), 0) == Seq::<char>::empty());
        assert(crate::text::expand_prefix(f, s, 1) =~= f(s[0]) + crate::text::expand_prefix(
            f,
            s.skip(1),
            0,
        ));
    } else {
        lemma_expand_head(f, s, i - 1);
        assert(s[i - 1] == s.skip(1)[i - 2]);
        assert(crate::text::expand_prefix(f, s.skip(1), i - 1) == crate::text::expand_prefix(
            f,
            s.skip(1),
            i - 2,
        ) + f(s.skip(1)[i - 2]));
        assert(crate::text::expand_prefix(f, s, i) =~= f(s[0]) + crate::text::expand_prefix(
            f,
            s.skip(1),
            i - 1,
        ));
    }
}

/// The frame a view denotes, over mathematical values alone; written in
/// the same tokens the parser matches.
pub open spec fn spec_frame_of_view(v: DaemonActionView) -> Seq<char> {
    match v {
        DaemonActionView::CloseNotification(id) => "{"@ + "\"CloseNotification\""@ + ":"@
            + spec_dec(id as int) + "}"@,
        DaemonActionView::OpenHistory => "\"OpenHistory\""@,
        DaemonActionView::CloseHistory => "\"CloseHistory\""@,
        DaemonActionView::ToggleHistory => "\"ToggleHistory\""@,
        DaemonActionView::ActionInvoked(id, s) => "{"@ + "\"ActionInvoked\""@ + ":["@ + spec_dec(
            id as int,
        ) + ",\""@ + spec_json_escape(s) + "\"]}"@,
        DaemonActionView::ReplySend(id, s) => "{"@ + "\"ReplySend\""@ + ":["@ + spec_dec(id as int)
            + ",\""@ + spec_json_escape(s) + "\"]}"@,
        DaemonActionView::ReplyClose(id) => "{"@ + "\"ReplyClose\""@ + ":"@ + spec_dec(id as int)
            + "}"@,
    }
}

/// Why a command line could not be turned into a control-channel command.
#[derive(Debug, PartialEq, Eq)]
pub enum CliError {
    NoArguments,
    InvalidClose,
    InvalidHistory,
    InvalidAction,
    InvalidReply,
    InvalidReplySend,
    InvalidCommand,
    InvalidId,
}

/// The value of an id argument: every character a digit (leading zeros
/// allowed, as ordinary number parsing accepts them) and small enough.
pub open spec fn spec_parse_u32(s: Seq<char>) -> Option<u32> {
    if s.len() >= 1 && all_digits(s) && dec_val(s) <= u32::MAX {
        Some(dec_val(s) as u32)
    } else {
        None
    }
}

/// Parses a whole string as a decimal `u32`.
pub fn parse_u32(s: &str) -> (r: Option<u32>)
    ensures
        r == spec_parse_u32(s@),
{
    let cs = to_char_vec(s);
    let n = cs.len();
    let d = digit_run(&cs, 0);
    if n == 0 || d != n {
        proof {
            if n != 0 && all_digits(cs@) {
                lemma_digit_run_len(cs@, 0, n as int);
            }
        }
        return None;
    }
    proof {
        assert(cs@.subrange(0, n as int) =~= cs@);
        assert(all_digits(cs@));
    }
    digits_value(&cs, 0, d)
}

/// The command denoted by the client's command-line arguments.
pub open spec fn spec_cli_command(args: Seq<String>) -> Result<DaemonActionView, CliError> {
    if args.len() == 0 {
        Err(CliError::NoArguments)
    } else if args[0]@ == "close"@ {
        if args.len() < 2 {
            Err(CliError::InvalidClose)
        } else {
            match spec_parse_u32(args[1]@) {
                Some(id) => Ok(DaemonActionView::CloseNotification(id)),
                None => Err(CliError::InvalidId),
            }
        }
    } else if args[0]@ == "history"@ {
        if args.len() < 2 {
            Err(CliError::InvalidHistory)
        } else if args[1]@ == "open"@ {
            Ok(DaemonActionView::OpenHistory)
        } else if args[1]@ == "close"@ {
            Ok(DaemonActionView::CloseHistory)
        } else if args[1]@ == "toggle"@ {
            Ok(DaemonActionView::ToggleHistory)
        } else {
            Err(CliError::InvalidCommand)
        }
    } else if args[0]@ == "action"@ {
        if args.len() < 3 {
            Err(CliError::InvalidAction)
        } else {
            match spec_parse_u32(args[1]@) {
                Some(id) => Ok(DaemonActionView::ActionInvoked(id, args[2]@)),
                None => Err(CliError::InvalidId),
            }
        }
    } else if args[0]@ == "reply"@ {
        if args.len() < 3 {
            Err(CliError::InvalidReply)
        } else if args[1]@ == "send"@ {
            if args.len() < 4 {
                Err(CliError::InvalidReplySend)
            } else {
                match spec_parse_u32(args[2]@) {
                    Some(id) => Ok(DaemonActionView::ReplySend(id, args[3]@)),
                    None => Err(CliError::InvalidId),
                }
            }
        } else if args[1]@ == "close"@ {
            match spec_parse_u32(args[2]@) {
                Some(id) => Ok(DaemonActionView::ReplyClose(id)),
                None => Err(CliError::InvalidId),
            }
        } else {
            Err(CliError::InvalidCommand)
        }
    } else {
        Err(CliError::InvalidCommand)
    }
}

/// Turns the client's command-line arguments into a control-channel
/// command, or says why they are not one.
pub fn build_message(args: &Vec<String>) -> (r: Result<DaemonActions, CliError>)
    ensures
        match (r, spec_cli_command(args@)) {
            (Ok(a), Ok(v)) => a@ == v,
            (Err(e1), Err(e2)) => e1 == e2,
            _ => false,
        },
{
    if args.len() == 0 {
        return Err(CliError::NoArguments);
    }
    let close_word = String::from_str("close");
    if args[0].eq(&close_word) {
        if args.len() < 2 {
            return Err(CliError::InvalidClose);
        }
        return match parse_u32(args[1].as_str()) {
            Some(id) => Ok(DaemonActions::CloseNotification(id)),
            None => Err(CliError::InvalidId),
        };
    }
    if args[0].eq(&String::from_str("history")) {
        if args.len() < 2 {
            return Err(CliError::InvalidHistory);
        }
        if args[1].eq(&String::from_str("open")) {
            return Ok(DaemonActions::OpenHistory);
        }
        if args[1].eq(&close_word) {
            return Ok(DaemonActions::CloseHistory);
        }
        if args[1].eq(&String::from_str("toggle")) {
            return Ok(DaemonActions::ToggleHistory);
        }
        return Err(CliError::InvalidCommand);
    }
    if args[0].eq(&String::from_str("action")) {
        if args.len() < 3 {
            return Err(CliError::InvalidAction);
        }
        return match parse_u32(args[1].as_str()) {
            Some(id) => Ok(DaemonActions::ActionInvoked(id, args[2].clone())),
            None => Err(CliError::InvalidId),
        };
    }
    if args[0].eq(&String::from_str("reply")) {
        if args.len() < 3 {
            return Err(CliError::InvalidReply);
        }
        if args[1].eq(&String::from_str("send")) {
            if args.len() < 4 {
                return Err(CliError::InvalidReplySend);
            }
            return match parse_u32(args[2].as_str()) {
                Some(id) => Ok(DaemonActions::ReplySend(id, args[3].clone())),
                None => Err(CliError::InvalidId),
            };
        }
        if args[1].eq(&close_word) {
            return match parse_u32(args[2].as_str()) {
                Some(id) => Ok(DaemonActions::ReplyClose(id)),
                None => Err(CliError::InvalidId),
            };
        }
        return Err(CliError::InvalidCommand);
    }
    Err(CliError::InvalidCommand)
}


/// JSON insignificant whitespace.
pub open spec fn is_json_ws(c: char) -> bool {
    c == ' ' || c == '\t' || c == '\n' || c == '\r'
}

/// The first position at or after `i` that does not hold whitespace.
pub open spec fn skip_ws(s: Seq<char>, i: int) -> int
    decreases s.len() - i,
{
    if i < 0 || i >= s.len() || !is_json_ws(s[i]) {
        i
    } else {
        skip_ws(s, i + 1)
    }
}

/// `p` stands at position `i` of `s`.
pub open spec fn matches_at(s: Seq<char>, i: int, p: Seq<char>) -> bool {
    0 <= i && i + p.len() <= s.len() && s.subrange(i, i + p.len() as int) == p
}

/// A hexadecimal digit, either case.
pub open spec fn is_hex_digit(c: char) -> bool {
    (48 <= c as u32 && c as u32 <= 57) || (97 <= c as u32 && c as u32 <= 102) || (65 <= c as u32
        && c as u32 <= 70)
}

/// The value of a hexadecimal digit.
pub open spec fn hex_digit_val(c: char) -> int {
    if 48 <= c as u32 && c as u32 <= 57 {
        (c as u32) as int - 48
    } else if 97 <= c as u32 && c as u32 <= 102 {
        (c as u32) as int - 87
    } else {
        (c as u32) as int - 55
    }
}

/// The value of the four hexadecimal digits at `i`.
pub open spec fn hex4_val(s: Seq<char>, i: int) -> int {
    hex_digit_val(s[i]) * 4096 + hex_digit_val(s[i + 1]) * 256 + hex_digit_val(s[i + 2]) * 16
        + hex_digit_val(s[i + 3])
}

/// The character a short JSON escape denotes.
pub open spec fn unescape_short(c: char) -> char {
    if c == 'b' {
        '\u{8}'
    } else if c == 'f' {
        '\u{c}'
    } else if c == 'n' {
        '\n'
    } else if c == 'r' {
        '\r'
    } else if c == 't' {
        '\t'
    } else {
        c
    }
}

/// The character with the given code point.
pub open spec fn codepoint_char(v: int) -> char {
    (v as u32) as char
}

pub open spec fn is_high_surrogate(v: int) -> bool {
    0xD800 <= v && v <= 0xDBFF
}

pub open spec fn is_low_surrogate(v: int) -> bool {
    0xDC00 <= v && v <= 0xDFFF
}

/// Scans a JSON string starting just after its opening quote: the decoded
/// characters and the position just past the closing quote.  Accepts the
/// standard escapes, `\uXXXX` in either case included, with surrogate
/// pairs combined; rejects raw control characters and lone surrogates.
pub open spec fn spec_scan_string(s: Seq<char>, i: int) -> Option<(Seq<char>, int)>
    decreases s.len() - i,
{
    if i < 0 || i >= s.len() {
        None
    } else if s[i] == '"' {
        Some((Seq::empty(), i + 1))
    } else if s[i] == '\\' {
        if i + 2 > s.len() {
            None
        } else {
            let c = s[i + 1];
            if c == '"' || c == '\\' || c == '/' || c == 'b' || c == 'f' || c == 'n' || c == 'r'
                || c == 't' {
                match spec_scan_string(s, i + 2) {
                    Some(r) => Some((seq![unescape_short(c)] + r.0, r.1)),
                    None => None,
                }
            } else if c == 'u' {
                if i + 6 > s.len() || !(is_hex_digit(s[i + 2]) && is_hex_digit(s[i + 3])
                    && is_hex_digit(s[i + 4]) && is_hex_digit(s[i + 5])) {
                    None
                } else {
                    let v = hex4_val(s, i + 2);
                    if is_high_surrogate(v) {
                        if i + 12 > s.len() || s[i + 6] != '\\' || s[i + 7] != 'u' || !(
                        is_hex_digit(s[i + 8]) && is_hex_digit(s[i + 9]) && is_hex_digit(s[i + 10])
                            && is_hex_digit(s[i + 11])) {
                            None
                        } else {
                            let w = hex4_val(s, i + 8);
                            if !is_low_surrogate(w) {
                                None
                            } else {
                                let cp = 0x10000 + (v - 0xD800) * 0x400 + (w - 0xDC00);
                                match spec_scan_string(s, i + 12) {
                                    Some(r) => Some((seq![codepoint_char(cp)] + r.0, r.1)),
                                    None => None,
                                }
                            }
                        }
                    } else if is_low_surrogate(v) {
                        None
                    } else {
                        match spec_scan_string(s, i + 6) {
                            Some(r) => Some((seq![codepoint_char(v)] + r.0, r.1)),
                            None => None,
                        }
                    }
                }
            } else {
                None
            }
        }
    } else if (s[i] as u32) < 32 {
        None
    } else {
        match spec_scan_string(s, i + 1) {
            Some(r) => Some((seq![s[i]] + r.0, r.1)),
            None => None,
        }
    }
}

/// A JSON number usable as an id at position `i`: a digit run with no
/// leading zero, fitting a `u32`; yields the value and the end position.
pub open spec fn spec_parse_number(s: Seq<char>, i: int) -> Option<(u32, int)> {
    let d = digits_prefix_len(s, i);
    let ds = s.subrange(i, i + d);
    if 0 <= i <= s.len() && d >= 1 && is_canon_digits(ds) && dec_val(ds) <= u32::MAX {
        Some(((dec_val(ds) as u32), i + d))
    } else {
        None
    }
}

/// An object frame `{ "key" : id }` whose key stands at `i`, with optional
/// whitespace around the tokens; `i` is just inside the brace.
pub open spec fn spec_parse_id_obj(s: Seq<char>, i: int, key: Seq<char>) -> Option<u32> {
    if !matches_at(s, i, key) {
        None
    } else {
        let j = skip_ws(s, i + key.len());
        if !(j < s.len() && s[j] == ':') {
            None
        } else {
            match spec_parse_number(s, skip_ws(s, j + 1)) {
                Some(ve) => {
                    let m = skip_ws(s, ve.1);
                    if m < s.len() && s[m] == '}' && skip_ws(s, m + 1) == s.len() {
                        Some(ve.0)
                    } else {
                        None
                    }
                },
                None => None,
            }
        }
    }
}

/// An object frame `{ "key" : [ id , "text" ] }` whose key stands at `i`,
/// with optional whitespace around the tokens.
pub open spec fn spec_parse_id_str_obj(s: Seq<char>, i: int, key: Seq<char>) -> Option<
    (u32, Seq<char>),
> {
    if !matches_at(s, i, key) {
        None
    } else {
        let j = skip_ws(s, i + key.len());
        if !(j < s.len() && s[j] == ':') {
            None
        } else {
            let k = skip_ws(s, j + 1);
            if !(k < s.len() && s[k] == '[') {
                None
            } else {
                match spec_parse_number(s, skip_ws(s, k + 1)) {
                    Some(ve) => {
                        let m = skip_ws(s, ve.1);
                        if !(m < s.len() && s[m] == ',') {
                            None
                        } else {
                            let q = skip_ws(s, m + 1);
                            if !(q < s.len() && s[q] == '"') {
                                None
                            } else {
                                match spec_scan_string(s, q + 1) {
                                    Some(te) => {
                                        let a = skip_ws(s, te.1);
                                        if a < s.len() && s[a] == ']' && {
                                            let b = skip_ws(s, a + 1);
                                            b < s.len() && s[b] == '}' && skip_ws(s, b + 1)
                                                == s.len()
                                        } {
                                            Some((ve.0, te.0))
                                        } else {
                                            None
                                        }
                                    },
                                    None => None,
                                }
                            }
                        }
                    },
                    None => None,
                }
            }
        }
    }
}

/// The command denoted by a frame, if it is one: a bare history command or
/// a one-key object in the shapes the writer produces, with any JSON
/// whitespace between the tokens and any standard escapes in the text.
pub open spec fn spec_parse_frame(s: Seq<char>) -> Option<DaemonActionView> {
    let i = skip_ws(s, 0);
    if i >= s.len() {
        None
    } else if s[i] == '"' {
        if matches_at(s, i, "\"OpenHistory\""@) && skip_ws(s, i + "\"OpenHistory\""@.len())
            == s.len() {
            Some(DaemonActionView::OpenHistory)
        } else if matches_at(s, i, "\"CloseHistory\""@) && skip_ws(
            s,
            i + "\"CloseHistory\""@.len(),
        ) == s.len() {
            Some(DaemonActionView::CloseHistory)
        } else if matches_at(s, i, "\"ToggleHistory\""@) && skip_ws(
            s,
            i + "\"ToggleHistory\""@.len(),
        ) == s.len() {
            Some(DaemonActionView::ToggleHistory)
        } else {
            None
        }
    } else if s[i] == '{' {
        let j = skip_ws(s, i + 1);
        if matches_at(s, j, "\"CloseNotification\""@) {
            match spec_parse_id_obj(s, j, "\"CloseNotification\""@) {
                Some(id) => Some(DaemonActionView::CloseNotification(id)),
                None => None,
            }
        } else if matches_at(s, j, "\"ReplyClose\""@) {
            match spec_parse_id_obj(s, j, "\"ReplyClose\""@) {
                Some(id) => Some(DaemonActionView::ReplyClose(id)),
                None => None,
            }
        } else if matches_at(s, j, "\"ActionInvoked\""@) {
            match spec_parse_id_str_obj(s, j, "\"ActionInvoked\""@) {
                Some(r) => Some(DaemonActionView::ActionInvoked(r.0, r.1)),
                None => None,
            }
        } else if matches_at(s, j, "\"ReplySend\""@) {
            match spec_parse_id_str_obj(s, j, "\"ReplySend\""@) {
                Some(r) => Some(DaemonActionView::ReplySend(r.0, r.1)),
                None => None,
            }
        } else {
            None
        }
    } else {
        None
    }
}

/// Skips whitespace from `i`.
fn ws_skip(cs: &Vec<char>, i: usize) -> (r: usize)
    requires
        i <= cs@.len(),
    ensures
        i <= r <= cs@.len(),
        r as int == skip_ws(cs@, i as int),
{
    let n = cs.len();
    let mut p = i;
    while p < n && (cs[p] == ' ' || cs[p] == '\t' || cs[p] == '\n' || cs[p] == '\r')
        invariant
            n == cs@.len(),
            i <= p <= n,
            skip_ws(cs@, i as int) == skip_ws(cs@, p as int),
        decreases n - p,
    {
        proof {
            assert(is_json_ws(cs@[p as int]));
        }
        p = p + 1;
    }
    proof {
        if p < n {
            assert(!is_json_ws(cs@[p as int]));
        }
    }
    p
}

/// Whether `p` stands at position `i` of `cs`.
fn match_at(cs: &Vec<char>, i: usize, p: &str) -> (r: bool)
    ensures
        r == matches_at(cs@, i as int, p@),
{
    let n = cs.len();
    let other = to_char_vec(p);
    if i > n || n - i < other.len() {
        return false;
    }
    let mut k: usize = 0;
    while k < other.len()
        invariant
            n == cs@.len(),
            other@ == p@,
            i + other@.len() <= n,
            k <= other@.len(),
            forall|t: int| 0 <= t < k ==> cs@[i + t] == other@[t],
        decreases other@.len() - k,
    {
        if cs[i + k] != other[k] {
            proof {
                assert(cs@.subrange(i as int, i + p@.len() as int)[k as int] == cs@[i + k]);
                assert(cs@.subrange(i as int, i + p@.len() as int) != p@);
            }
            return false;
        }
        k = k + 1;
    }
    proof {
        assert(cs@.subrange(i as int, i + p@.len() as int) =~= p@);
    }
    true
}

/// Scans an id at position `i`.
fn scan_number(cs: &Vec<char>, i: usize) -> (r: Option<(u32, usize)>)
    requires
        i <= cs@.len(),
    ensures
        match (r, spec_parse_number(cs@, i as int)) {
            (Some(x), Some(y)) => x.0 == y.0 && x.1 as int == y.1 && x.1 <= cs@.len(),
            (None, None) => true,
            _ => false,
        },
{
    let n = cs.len();
    let d = digit_run(cs, i);
    if d == 0 {
        return None;
    }
    if d > 1 && cs[i] == '0' {
        proof {
            assert(cs@.subrange(i as int, i + d as int)[0] == cs@[i as int]);
        }
        return None;
    }
    proof {
        let ds = cs@.subrange(i as int, i + d as int);
        assert(forall|k: int| 0 <= k < ds.len() ==> ds[k] == cs@[i + k]);
        assert(is_canon_digits(ds));
    }
    match digits_value(cs, i, d) {
        Some(v) => Some((v, i + d)),
        None => None,
    }
}

/// Relies on `char::from_u32`: the character with the given code point,
/// or `None` exactly for surrogate values and values above the highest
/// code point.
#[verifier::external_body]
fn char_from_code(v: u32) -> (r: Option<char>)
    ensures
        match r {
            Some(c) => c as u32 == v,
            None => !(v < 0xD800 || (0xE000 <= v && v <= 0x10FFFF)),
        },
        (v < 0xD800 || (0xE000 <= v && v <= 0x10FFFF)) ==> r is Some,
{
    char::from_u32(v)
}

/// How a scan in progress at `p` relates to the scan of the whole string
/// from `i`: same verdict, and the final value is what is already decoded
/// plus the rest.
pub open spec fn spec_scan_rel(s: Seq<char>, i: int, p: int, out: Seq<char>) -> bool {
    match (spec_scan_string(s, i), spec_scan_string(s, p)) {
        (Some(a), Some(b)) => a.0 == out + b.0 && a.1 == b.1,
        (None, None) => true,
        _ => false,
    }
}

/// One decoded character carries the scan relation forward.
proof fn lemma_scan_step(s: Seq<char>, i: int, p0: int, p1: int, out: Seq<char>, x: char)
    requires
        spec_scan_rel(s, i, p0, out),
        match (spec_scan_string(s, p0), spec_scan_string(s, p1)) {
            (Some(a), Some(b)) => a.0 == seq![x] + b.0 && a.1 == b.1,
            (None, None) => true,
            _ => false,
        },
    ensures
        spec_scan_rel(s, i, p1, out.push(x)),
{
    match (spec_scan_string(s, i), spec_scan_string(s, p0), spec_scan_string(s, p1)) {
        (Some(a), Some(b), Some(c)) => {
            assert(a.0 =~= out.push(x) + c.0);
        },
        _ => {},
    }
}

/// Scans a JSON string starting just after its opening quote.
#[verifier::rlimit(50)]
fn scan_string(cs: &Vec<char>, i: usize) -> (r: Option<(String, usize)>)
    requires
        i <= cs@.len(),
    ensures
        match (r, spec_scan_string(cs@, i as int)) {
            (Some(x), Some(y)) => x.0@ == y.0 && x.1 as int == y.1 && x.1 <= cs@.len(),
            (None, None) => true,
            _ => false,
        },
{
    let n = cs.len();
    let mut out = String::new();
    let mut pos = i;
    proof {
        assert(spec_scan_rel(cs@, i as int, i as int, out@));
    }
    loop
        invariant
            n == cs@.len(),
            i <= pos <= n,
            spec_scan_rel(cs@, i as int, pos as int, out@),
        decreases n - pos,
    {
        let ghost p0 = pos as int;
        if pos >= n {
            return None;
        }
        let c = cs[pos];
        if c == '"' {
            proof {
                assert(spec_scan_string(cs@, p0) == Some((Seq::<char>::empty(), p0 + 1)));
                match spec_scan_string(cs@, i as int) {
                    Some(a) => {
                        assert(a.0 =~= out@);
                    },
                    None => {},
                }
            }
            return Some((out, pos + 1));
        }
        if c == '\\' {
            if n - pos < 2 {
                return None;
            }
            let c2 = cs[pos + 1];
            if c2 == '"' || c2 == '\\' || c2 == '/' || c2 == 'b' || c2 == 'f' || c2 == 'n' || c2
                == 'r' || c2 == 't' {
                let x = if c2 == 'b' {
                    '\u{8}'
                } else if c2 == 'f' {
                    '\u{c}'
                } else if c2 == 'n' {
                    '\n'
                } else if c2 == 'r' {
                    '\r'
                } else if c2 == 't' {
                    '\t'
                } else {
                    c2
                };
                let ghost o0 = out@;
                crate::text::push_char(&mut out, x);
                pos = pos + 2;
                proof {
                    assert(x == unescape_short(c2));
                    assert(spec_scan_string(cs@, p0) == (match spec_scan_string(cs@, pos as int) {
                        Some(r) => Some((seq![x] + r.0, r.1)),
                        None => None,
                    }));
                    lemma_scan_step(cs@, i as int, p0, pos as int, o0, x);
                    assert(out@ == o0.push(x));
                }
            } else if c2 == 'u' {
                if n - pos < 6 {
                    return None;
                }
                let h0 = hex_digit(cs[pos + 2]);
                let h1 = hex_digit(cs[pos + 3]);
                let h2 = hex_digit(cs[pos + 4]);
                let h3 = hex_digit(cs[pos + 5]);
                let (v0, v1, v2, v3) = match (h0, h1, h2, h3) {
                    (Some(a), Some(b), Some(c3), Some(d)) => (a, b, c3, d),
                    _ => {
                        return None;
                    },
                };
                let v: u32 = v0 * 4096 + v1 * 256 + v2 * 16 + v3;
                proof {
                    assert(v as int == hex4_val(cs@, p0 + 2));
                }
                if 0xD800 <= v && v <= 0xDBFF {
                    if n - pos < 12 {
                        return None;
                    }
                    if cs[pos + 6] != '\\' || cs[pos + 7] != 'u' {
                        return None;
                    }
                    let g0 = hex_digit(cs[pos + 8]);
                    let g1 = hex_digit(cs[pos + 9]);
                    let g2 = hex_digit(cs[pos + 10]);
                    let g3 = hex_digit(cs[pos + 11]);
                    let (w0, w1, w2, w3) = match (g0, g1, g2, g3) {
                        (Some(a), Some(b), Some(c3), Some(d)) => (a, b, c3, d),
                        _ => {
                            return None;
                        },
                    };
                    let w: u32 = w0 * 4096 + w1 * 256 + w2 * 16 + w3;
                    proof {
                        assert(w as int == hex4_val(cs@, p0 + 8));
                    }
                    if !(0xDC00 <= w && w <= 0xDFFF) {
                        return None;
                    }
                    let cp: u32 = 0x10000 + (v - 0xD800) * 0x400 + (w - 0xDC00);
                    let x = match char_from_code(cp) {
                        Some(x) => x,
                        None => vstd::pervasive::unreached(),
                    };
                    let ghost o0 = out@;
                    crate::text::push_char(&mut out, x);
                    pos = pos + 12;
                    proof {
                        vstd::utf8::char_u32_cast(x, cp);
                        assert(x == codepoint_char(cp as int));
                        assert(spec_scan_string(cs@, p0) == (match spec_scan_string(
                            cs@,
                            pos as int,
                        ) {
                            Some(r) => Some((seq![x] + r.0, r.1)),
                            None => None,
                        }));
                        lemma_scan_step(cs@, i as int, p0, pos as int, o0, x);
                        assert(out@ == o0.push(x));
                    }
                } else if 0xDC00 <= v && v <= 0xDFFF {
                    return None;
                } else {
                    let x = match char_from_code(v) {
                        Some(x) => x,
                        None => vstd::pervasive::unreached(),
                    };
                    let ghost o0 = out@;
                    crate::text::push_char(&mut out, x);
                    pos = pos + 6;
                    proof {
                        vstd::utf8::char_u32_cast(x, v);
                        assert(x == codepoint_char(v as int));
                        assert(spec_scan_string(cs@, p0) == (match spec_scan_string(
                            cs@,
                            pos as int,
                        ) {
                            Some(r) => Some((seq![x] + r.0, r.1)),
                            None => None,
                        }));
                        lemma_scan_step(cs@, i as int, p0, pos as int, o0, x);
                        assert(out@ == o0.push(x));
                    }
                }
            } else {
                return None;
            }
        } else if (c as u32) < 32 {
            return None;
        } else {
            let ghost o0 = out@;
            crate::text::push_char(&mut out, c);
            pos = pos + 1;
            proof {
                assert(spec_scan_string(cs@, p0) == (match spec_scan_string(cs@, pos as int) {
                    Some(r) => Some((seq![c] + r.0, r.1)),
                    None => None,
                }));
                lemma_scan_step(cs@, i as int, p0, pos as int, o0, c);
                assert(out@ == o0.push(c));
            }
        }
    }
}

/// The value of one hexadecimal digit character, either case.
fn hex_digit(c: char) -> (r: Option<u32>)
    ensures
        match r {
            Some(v) => is_hex_digit(c) && v as int == hex_digit_val(c),
            None => !is_hex_digit(c),
        },
{
    let u = c as u32;
    if 48 <= u && u <= 57 {
        Some(u - 48)
    } else if 97 <= u && u <= 102 {
        Some(u - 87)
    } else if 65 <= u && u <= 70 {
        Some(u - 55)
    } else {
        None
    }
}

/// Parses the rest of an object frame with an id payload.
fn parse_id_obj(cs: &Vec<char>, i: usize, key: &str) -> (r: Option<u32>)
    requires
        i <= cs@.len(),
        matches_at(cs@, i as int, key@),
    ensures
        r == spec_parse_id_obj(cs@, i as int, key@),
{
    let n = cs.len();
    let plen = key.unicode_len();
    let j = ws_skip(cs, i + plen);
    if j >= n || cs[j] != ':' {
        return None;
    }
    let k = ws_skip(cs, j + 1);
    match scan_number(cs, k) {
        Some((v, e)) => {
            let m = ws_skip(cs, e);
            if m < n && cs[m] == '}' {
                let z = ws_skip(cs, m + 1);
                if z == n {
                    Some(v)
                } else {
                    None
                }
            } else {
                None
            }
        },
        None => None,
    }
}

/// Parses the rest of an object frame with an id-and-text payload.
fn parse_id_str_obj(cs: &Vec<char>, i: usize, key: &str) -> (r: Option<(u32, String)>)
    requires
        i <= cs@.len(),
        matches_at(cs@, i as int, key@),
    ensures
        match (r, spec_parse_id_str_obj(cs@, i as int, key@)) {
            (Some(x), Some(y)) => x.0 == y.0 && x.1@ == y.1,
            (None, None) => true,
            _ => false,
        },
{
    let n = cs.len();
    let plen = key.unicode_len();
    let j = ws_skip(cs, i + plen);
    if j >= n || cs[j] != ':' {
        return None;
    }
    let k = ws_skip(cs, j + 1);
    if k >= n || cs[k] != '[' {
        return None;
    }
    let k2 = ws_skip(cs, k + 1);
    let (v, e) = match scan_number(cs, k2) {
        Some(x) => x,
        None => {
            return None;
        },
    };
    let m = ws_skip(cs, e);
    if m >= n || cs[m] != ',' {
        return None;
    }
    let q = ws_skip(cs, m + 1);
    if q >= n || cs[q] != '"' {
        return None;
    }
    let (text, e2) = match scan_string(cs, q + 1) {
        Some(x) => x,
        None => {
            return None;
        },
    };
    let a = ws_skip(cs, e2);
    if a >= n || cs[a] != ']' {
        return None;
    }
    let b = ws_skip(cs, a + 1);
    if b >= n || cs[b] != '}' {
        return None;
    }
    let z = ws_skip(cs, b + 1);
    if z == n {
        Some((v, text))
    } else {
        None
    }
}

/// Parses one control-channel frame; `None` exactly when the line denotes
/// no command of the frame grammar.
pub fn parse_frame(line: &str) -> (r: Option<DaemonActions>)
    ensures
        opt_action_view(r) == spec_parse_frame(line@),
{
    let cs = to_char_vec(line);
    let n = cs.len();
    let i = ws_skip(&cs, 0);
    if i >= n {
        return None;
    }
    let c = cs[i];
    if c == '"' {
        if match_at(&cs, i, "\"OpenHistory\"") && ws_skip(
            &cs,
            i + "\"OpenHistory\"".unicode_len(),
        ) == n {
            return Some(DaemonActions::OpenHistory);
        }
        if match_at(&cs, i, "\"CloseHistory\"") && ws_skip(
            &cs,
            i + "\"CloseHistory\"".unicode_len(),
        ) == n {
            return Some(DaemonActions::CloseHistory);
        }
        if match_at(&cs, i, "\"ToggleHistory\"") && ws_skip(
            &cs,
            i + "\"ToggleHistory\"".unicode_len(),
        ) == n {
            return Some(DaemonActions::ToggleHistory);
        }
        return None;
    }
    if c == '{' {
        let j = ws_skip(&cs, i + 1);
        if match_at(&cs, j, "\"CloseNotification\"") {
            return match parse_id_obj(&cs, j, "\"CloseNotification\"") {
                Some(id) => Some(DaemonActions::CloseNotification(id)),
                None => None,
            };
        }
        if match_at(&cs, j, "\"ReplyClose\"") {
            return match parse_id_obj(&cs, j, "\"ReplyClose\"") {
                Some(id) => Some(DaemonActions::ReplyClose(id)),
                None => None,
            };
        }
        if match_at(&cs, j, "\"ActionInvoked\"") {
            return match parse_id_str_obj(&cs, j, "\"ActionInvoked\"") {
                Some(x) => Some(DaemonActions::ActionInvoked(x.0, x.1)),
                None => None,
            };
        }
        if match_at(&cs, j, "\"ReplySend\"") {
            return match parse_id_str_obj(&cs, j, "\"ReplySend\"") {
                Some(x) => Some(DaemonActions::ReplySend(x.0, x.1)),
                None => None,
            };
        }
        return None;
    }
    None
}

/// Scanning the writer's escaping of `text`, followed by a closing quote,
/// yields `text` and stops just past the quote.
#[verifier::rlimit(50)]
proof fn lemma_scan_of_escape(s: Seq<char>, i: int, text: Seq<char>)
    requires
        0 <= i,
        i + spec_json_escape(text).len() < s.len(),
        forall|k: int|
            0 <= k < spec_json_escape(text).len() ==> s[i + k] == #[trigger] spec_json_escape(
                text,
            )[k],
        s[i + spec_json_escape(text).len()] == '"',
    ensures
        spec_scan_string(s, i) == Some((text, i + spec_json_escape(text).len() + 1)),
    decreases text.len(),
{
    let f = |c: char| crate::text::json_escape_char(c);
    let e = spec_json_escape(text);
    if text.len() == 0 {
        assert(e =~= Seq::<char>::empty());
        assert(s[i] == '"');
        assert(text =~= Seq::<char>::empty());
    } else {
        lemma_expand_head(f, text, text.len() as int);
        let c = text[0];
        let e0 = crate::text::json_escape_char(c);
        let rest = spec_json_escape(text.skip(1));
        assert(text.skip(1).len() == text.len() - 1);
        assert(e == e0 + rest);
        assert(e.len() == e0.len() + rest.len());
        assert(forall|k: int| 0 <= k < e0.len() ==> #[trigger] e[k] == e0[k]);
        assert forall|k: int| 0 <= k < e0.len() implies s[i + k] == #[trigger] e0[k] by {
            assert(e0[k] == e[k]);
            assert(s[i + k] == e[k]);
        }
        assert(forall|k: int| 0 <= k < rest.len() ==> #[trigger] rest[k] == e[e0.len() + k]);
        assert forall|k: int| 0 <= k < rest.len() implies s[i + e0.len() + k] == #[trigger] rest[k]
            by {
            assert(rest[k] == e[e0.len() + k]);
            assert(s[i + (e0.len() + k)] == e[e0.len() + k]);
        }
        assert(s[i + e0.len() + rest.len()] == '"');
        lemma_scan_of_escape(s, i + e0.len(), text.skip(1));
        assert(seq![c] + text.skip(1) =~= text);
        if c == '"' || c == '\\' {
            assert(e0 =~= seq!['\\', c]);
            assert(s[i + 0] == e0[0] && s[i + 1] == e0[1]);
            assert(s[i] == '\\' && s[i + 1] == c);
            assert(unescape_short(c) == c);
            assert(spec_scan_string(s, i) == Some((text, i + e.len() + 1)));
        } else if c == '\u{8}' {
            assert(e0 =~= seq!['\\', 'b']);
            assert(s[i + 0] == e0[0] && s[i + 1] == e0[1]);
            assert(s[i] == '\\' && s[i + 1] == 'b');
            assert(spec_scan_string(s, i) == Some((text, i + e.len() + 1)));
        } else if c == '\t' {
            assert(e0 =~= seq!['\\', 't']);
            assert(s[i + 0] == e0[0] && s[i + 1] == e0[1]);
            assert(s[i] == '\\' && s[i + 1] == 't');
            assert(spec_scan_string(s, i) == Some((text, i + e.len() + 1)));
        } else if c == '\n' {
            assert(e0 =~= seq!['\\', 'n']);
            assert(s[i + 0] == e0[0] && s[i + 1] == e0[1]);
            assert(s[i] == '\\' && s[i + 1] == 'n');
            assert(spec_scan_string(s, i) == Some((text, i + e.len() + 1)));
        } else if c == '\u{c}' {
            assert(e0 =~= seq!['\\', 'f']);
            assert(s[i + 0] == e0[0] && s[i + 1] == e0[1]);
            assert(s[i] == '\\' && s[i + 1] == 'f');
            assert(spec_scan_string(s, i) == Some((text, i + e.len() + 1)));
        } else if c == '\r' {
            assert(e0 =~= seq!['\\', 'r']);
            assert(s[i + 0] == e0[0] && s[i + 1] == e0[1]);
            assert(s[i] == '\\' && s[i + 1] == 'r');
            assert(spec_scan_string(s, i) == Some((text, i + e.len() + 1)));
        } else if (c as u32) < 32 {
            let hi = (c as u32) as int / 16;
            let lo = (c as u32) as int % 16;
            assert(e0.len() == 6);
            assert(e0[0] == '\\' && e0[1] == 'u' && e0[2] == '0' && e0[3] == '0');
            assert(e0[4] == crate::text::spec_hex_digit(hi));
            assert(e0[5] == crate::text::spec_hex_digit(lo));
            assert(0 <= hi < 2 && 0 <= lo < 16);
            assert(crate::text::spec_hex_digit(hi) as u32 == 48 + hi);
            if lo < 10 {
                assert(crate::text::spec_hex_digit(lo) as u32 == 48 + lo);
            } else {
                assert(crate::text::spec_hex_digit(lo) as u32 == 87 + lo);
            }
            assert(s[i + 0] == e0[0] && s[i + 1] == e0[1] && s[i + 2] == e0[2] && s[i + 3]
                == e0[3] && s[i + 4] == e0[4] && s[i + 5] == e0[5]);
            assert(s[i] == '\\' && s[i + 1] == 'u' && s[i + 2] == '0' && s[i + 3] == '0');
            assert('0' as u32 == 48);
            assert(is_hex_digit(s[i + 2]) && is_hex_digit(s[i + 3]));
            assert(is_hex_digit(s[i + 4]) && is_hex_digit(s[i + 5]));
            assert(hex_digit_val(s[i + 2]) == 0 && hex_digit_val(s[i + 3]) == 0);
            assert(hex_digit_val(s[i + 4]) == hi && hex_digit_val(s[i + 5]) == lo);
            assert(hex4_val(s, i + 2) == hi * 16 + lo);
            assert(hex4_val(s, i + 2) == (c as u32) as int);
            assert(!is_high_surrogate(hex4_val(s, i + 2)));
            assert(!is_low_surrogate(hex4_val(s, i + 2)));
            vstd::utf8::char_u32_cast(c, c as u32);
            assert(codepoint_char(hex4_val(s, i + 2)) == c);
            assert(spec_scan_string(s, i) == Some((text, i + e.len() + 1)));
        } else {
            assert(e0 =~= seq![c]);
            assert(s[i + 0] == e0[0]);
            assert(s[i] == c);
            assert(c != '"' && c != '\\' && (c as u32) >= 32);
            assert(spec_scan_string(s, i) == Some((text, i + e.len() + 1)));
        }
    }
}

/// The writer's id-object frame parses back to its id.
#[verifier::rlimit(50)]
proof fn lemma_parse_id_obj_of_frame(key: Seq<char>, id: u32)
    ensures
        ({
            let s = "{"@ + key + ":"@ + spec_dec(id as int) + "}"@;
            spec_parse_id_obj(s, 1, key) == Some(id)
        }),
{
    reveal_strlit("{");
    reveal_strlit(":");
    reveal_strlit("}");
    lemma_dec_digits(id as int);
    let ds = spec_dec(id as int);
    let s = "{"@ + key + ":"@ + ds + "}"@;
    let kl = key.len() as int;
    let dl = ds.len() as int;
    assert(s.len() == 2 + kl + dl + 1);
    assert(forall|k: int| 0 <= k < kl ==> s[1 + k] == #[trigger] key[k]);
    assert(s.subrange(1, 1 + kl) =~= key);
    assert(matches_at(s, 1, key));
    assert(s[1 + kl] == ':');
    assert(skip_ws(s, 1 + kl) == 1 + kl);
    let k0 = 2 + kl;
    assert(forall|k: int| 0 <= k < dl ==> s[k0 + k] == #[trigger] ds[k]);
    assert(is_digit(s[k0]));
    assert(skip_ws(s, k0) == k0);
    assert(s[k0 + dl] == '}');
    assert('}' as u32 == 125);
    assert(!is_digit(s[k0 + dl]));
    lemma_digit_run_len(s, k0, dl);
    assert(s.subrange(k0, k0 + dl) =~= ds);
    assert(spec_parse_number(s, k0) == Some((id, k0 + dl)));
    assert(skip_ws(s, k0 + dl) == k0 + dl);
    assert(skip_ws(s, k0 + dl + 1) == s.len());
}

/// The writer's id-and-text frame parses back to its id and text.
#[verifier::rlimit(50)]
proof fn lemma_parse_id_str_of_frame(key: Seq<char>, id: u32, text: Seq<char>)
    ensures
        ({
            let s = "{"@ + key + ":["@ + spec_dec(id as int) + ",\""@ + spec_json_escape(text)
                + "\"]}"@;
            spec_parse_id_str_obj(s, 1, key) matches Some(r) && r.0 == id && r.1 == text
        }),
{
    reveal_strlit("{");
    reveal_strlit(":[");
    reveal_strlit(",\"");
    reveal_strlit("\"]}");
    lemma_dec_digits(id as int);
    let ds = spec_dec(id as int);
    let e = spec_json_escape(text);
    let s = "{"@ + key + ":["@ + ds + ",\""@ + e + "\"]}"@;
    let kl = key.len() as int;
    let dl = ds.len() as int;
    let el = e.len() as int;
    assert(s.len() == kl + dl + el + 8);
    assert(forall|k: int| 0 <= k < kl ==> s[1 + k] == #[trigger] key[k]);
    assert(s.subrange(1, 1 + kl) =~= key);
    assert(matches_at(s, 1, key));
    assert(s[1 + kl] == ':' && s[2 + kl] == '[');
    assert(skip_ws(s, 1 + kl) == 1 + kl);
    assert(skip_ws(s, 2 + kl) == 2 + kl);
    let k0 = 3 + kl;
    assert(forall|k: int| 0 <= k < dl ==> s[k0 + k] == #[trigger] ds[k]);
    assert(is_digit(s[k0]));
    assert(skip_ws(s, k0) == k0);
    assert(s[k0 + dl] == ',' && s[k0 + dl + 1] == '"');
    assert(',' as u32 == 44);
    assert(!is_digit(s[k0 + dl]));
    lemma_digit_run_len(s, k0, dl);
    assert(s.subrange(k0, k0 + dl) =~= ds);
    assert(spec_parse_number(s, k0) == Some((id, k0 + dl)));
    assert(skip_ws(s, k0 + dl) == k0 + dl);
    assert(skip_ws(s, k0 + dl + 1) == k0 + dl + 1);
    let q1 = k0 + dl + 2;
    assert(forall|k: int| 0 <= k < el ==> s[q1 + k] == #[trigger] e[k]);
    assert(s[q1 + el] == '"' && s[q1 + el + 1] == ']' && s[q1 + el + 2] == '}');
    lemma_scan_of_escape(s, q1, text);
    assert(spec_scan_string(s, q1) == Some((text, q1 + el + 1)));
    assert(skip_ws(s, q1 + el + 1) == q1 + el + 1);
    assert(skip_ws(s, q1 + el + 2) == q1 + el + 2);
    assert(skip_ws(s, q1 + el + 3) == s.len());
}

/// The codec round trip: every frame the writer produces parses back to
/// the command it was written for.
#[verifier::rlimit(50)]
pub proof fn lemma_frame_round_trip(a: DaemonActions)
    ensures
        spec_parse_frame(spec_frame(a)) == Some(a@),
{
    reveal_strlit("{");
    reveal_strlit("\"OpenHistory\"");
    reveal_strlit("\"CloseHistory\"");
    reveal_strlit("\"ToggleHistory\"");
    reveal_strlit("\"CloseNotification\"");
    reveal_strlit("\"ReplyClose\"");
    reveal_strlit("\"ActionInvoked\"");
    reveal_strlit("\"ReplySend\"");
    let s = spec_frame(a);
    let cn = "\"CloseNotification\""@;
    let rc = "\"ReplyClose\""@;
    let ai = "\"ActionInvoked\""@;
    let rs = "\"ReplySend\""@;
    match a {
        DaemonActions::OpenHistory => {
            assert(skip_ws(s, 0) == 0);
            assert(s.subrange(0, s.len() as int) =~= s);
            assert(matches_at(s, 0, "\"OpenHistory\""@));
            assert(skip_ws(s, s.len() as int) == s.len());
        },
        DaemonActions::CloseHistory => {
            assert(skip_ws(s, 0) == 0);
            if matches_at(s, 0, "\"OpenHistory\""@) {
                assert(s.subrange(0, 13)[1] == s[1]);
                assert(false);
            }
            assert(s.subrange(0, s.len() as int) =~= s);
            assert(matches_at(s, 0, "\"CloseHistory\""@));
            assert(skip_ws(s, s.len() as int) == s.len());
        },
        DaemonActions::ToggleHistory => {
            assert(skip_ws(s, 0) == 0);
            if matches_at(s, 0, "\"OpenHistory\""@) {
                assert(s.subrange(0, 13)[1] == s[1]);
                assert(false);
            }
            if matches_at(s, 0, "\"CloseHistory\""@) {
                assert(s.subrange(0, 14)[1] == s[1]);
                assert(false);
            }
            assert(s.subrange(0, s.len() as int) =~= s);
            assert(matches_at(s, 0, "\"ToggleHistory\""@));
            assert(skip_ws(s, s.len() as int) == s.len());
        },
        DaemonActions::CloseNotification(id) => {
            assert(s[0] == '{');
            assert(skip_ws(s, 0) == 0);
            assert(s[1] == cn[0]);
            assert(skip_ws(s, 1) == 1);
            assert(s.subrange(1, 1 + cn.len() as int) =~= cn);
            assert(matches_at(s, 1, cn));
            lemma_parse_id_obj_of_frame(cn, id);
        },
        DaemonActions::ReplyClose(id) => {
            assert(s[0] == '{');
            assert(skip_ws(s, 0) == 0);
            assert(s[1] == rc[0]);
            assert(skip_ws(s, 1) == 1);
            if matches_at(s, 1, cn) {
                assert(s.subrange(1, 1 + cn.len() as int)[1] == s[2]);
                assert(s[2] == rc[1]);
                assert(false);
            }
            assert(s.subrange(1, 1 + rc.len() as int) =~= rc);
            assert(matches_at(s, 1, rc));
            lemma_parse_id_obj_of_frame(rc, id);
        },
        DaemonActions::ActionInvoked(id, text) => {
            assert(s[0] == '{');
            assert(skip_ws(s, 0) == 0);
            assert(s[1] == ai[0]);
            assert(skip_ws(s, 1) == 1);
            if matches_at(s, 1, cn) {
                assert(s.subrange(1, 1 + cn.len() as int)[1] == s[2]);
                assert(s[2] == ai[1]);
                assert(false);
            }
            if matches_at(s, 1, rc) {
                assert(s.subrange(1, 1 + rc.len() as int)[1] == s[2]);
                assert(s[2] == ai[1]);
                assert(false);
            }
            assert(s.subrange(1, 1 + ai.len() as int) =~= ai);
            assert(matches_at(s, 1, ai));
            lemma_parse_id_str_of_frame(ai, id, text@);
        },
        DaemonActions::ReplySend(id, text) => {
            assert(s[0] == '{');
            assert(skip_ws(s, 0) == 0);
            assert(s[1] == rs[0]);
            assert(skip_ws(s, 1) == 1);
            if matches_at(s, 1, cn) {
                assert(s.subrange(1, 1 + cn.len() as int)[1] == s[2]);
                assert(s[2] == rs[1]);
                assert(false);
            }
            if matches_at(s, 1, rc) {
                assert(s.subrange(1, 1 + rc.len() as int)[7] == s[8]);
                assert(s[8] == rs[7]);
                assert(false);
            }
            if matches_at(s, 1, ai) {
                assert(s.subrange(1, 1 + ai.len() as int)[1] == s[2]);
                assert(s[2] == rs[1]);
                assert(false);
            }
            assert(s.subrange(1, 1 + rs.len() as int) =~= rs);
            assert(matches_at(s, 1, rs));
            lemma_parse_id_str_of_frame(rs, id, text@);
        },
    }
}

} // verus!
