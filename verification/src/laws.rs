//! Properties of the library that relate several calls or inputs.
use crate::client::{
    auth_header_text, auth_outcome, builder_config, client_result, user_agent_text, AltertableClient,
    AuthView, BuilderView, ConfigView, EnvView,
};
use crate::error::{error_text, message_of, status_error, ContextView, ErrorView};
use crate::json::json_from_str_result;
use crate::models::{format_name, mode_name, UploadFormat, UploadMode};
use crate::query::{is_columns_shape, scan_pieces, scan_step, scan_text, ScanView};
use crate::requests::{is_server_error, is_success, method_name, plan_for, upload_query, url_text, BodyView, HttpMethod};
use crate::transport::{duration_of_secs, http_client_settings};
use crate::text::{decimal, digit_char, is_white_space, split_lines, trim, trim_end, trim_start, lemma_split_lines_nonempty};
use vstd::prelude::*;

verus! {

/// A slash at the end of the base URL does not change any request URL.
pub proof fn law_url_ignores_trailing_slash(base: Seq<char>, path: Seq<char>)
    ensures
        url_text(base.push('/'), path) == url_text(base, path),
{
    assert(base.push('/').drop_last() =~= base);
}

/// A configured token decides the credentials, whatever the environment
/// holds.
pub proof fn law_token_ignores_environment(
    username: Option<Seq<char>>,
    password: Option<Seq<char>>,
    token: Seq<char>,
    env1: EnvView,
    env2: EnvView,
)
    ensures
        auth_outcome(username, password, Some(token), env1) == auth_outcome(
            username,
            password,
            Some(token),
            env2,
        ),
{
}

/// With no token anywhere, a user name and password given to the builder
/// are used as given, whatever else the environment holds.
pub proof fn law_given_credentials_win(
    username: Seq<char>,
    password: Seq<char>,
    env: EnvView,
)
    requires
        env.basic_auth_token is None,
        username.len() > 0,
        password.len() > 0,
    ensures
        auth_outcome(Some(username), Some(password), None, env) == Ok::<AuthView, Seq<char>>(
            AuthView::Basic { username, password },
        ),
{
}

/// An `Authorization` header used as a token gives the same header again.
pub proof fn law_header_as_token_is_kept(auth: AuthView)
    ensures
        auth_header_text(AuthView::BasicToken(auth_header_text(auth))) == auth_header_text(auth),
{
    let text = auth_header_text(auth);
    let prefix = "Basic "@;
    match auth {
        AuthView::Basic { username, password } => {
            assert((prefix + text.skip(prefix.len() as int)).take(prefix.len() as int) =~= prefix);
            assert(text.take(prefix.len() as int) =~= prefix);
        },
        AuthView::BasicToken(token) => {
            if !(prefix.len() <= token.len() && token.take(prefix.len() as int) == prefix) {
                assert(text.take(prefix.len() as int) =~= prefix);
            }
        },
    }
}


/// Once a line fails to parse, no later line changes the outcome of the
/// scan: the error names the first bad line.
pub proof fn law_failure_is_final(first: Seq<Seq<char>>, rest: Seq<Seq<char>>)
    requires
        scan_pieces(first) is Failed,
    ensures
        scan_pieces(first + rest) == scan_pieces(first),
    decreases rest.len(),
{
    if rest.len() == 0 {
        assert(first + rest =~= first);
    } else {
        law_failure_is_final(first, rest.drop_last());
        assert((first + rest).drop_last() =~= first + rest.drop_last());
    }
}

/// Later lines only add to a scan: what the earlier lines gave as metadata,
/// column list and rows stays, the rows in the same order at the front.
pub proof fn law_scan_only_grows(first: Seq<Seq<char>>, rest: Seq<Seq<char>>)
    requires
        scan_pieces(first + rest) is Running,
    ensures
        scan_pieces(first) is Running,
        ({
            let a = scan_pieces(first);
            let b = scan_pieces(first + rest);
            &&& a->Running_rows.len() <= b->Running_rows.len()
            &&& b->Running_rows.take(a->Running_rows.len() as int) == a->Running_rows
            &&& a->Running_metadata is Some ==> b->Running_metadata == a->Running_metadata
            &&& a->Running_columns is Some ==> b->Running_columns == a->Running_columns
        }),
    decreases rest.len(),
{
    if rest.len() == 0 {
        assert(first + rest =~= first);
        let rows = scan_pieces(first)->Running_rows;
        assert(rows.take(rows.len() as int) =~= rows);
    } else {
        assert((first + rest).drop_last() =~= first + rest.drop_last());
        let mid = scan_pieces(first + rest.drop_last());
        if mid is Failed {
            assert(scan_pieces(first + rest) == mid);
        }
        law_scan_only_grows(first, rest.drop_last());
        let a = scan_pieces(first);
        let b = scan_pieces(first + rest);
        assert(b->Running_rows.take(a->Running_rows.len() as int) =~= mid->Running_rows.take(
            a->Running_rows.len() as int,
        ));
    }
}

/// Adding white space after a text does not change where its leading
/// white space ends, unless the text is all white space.
proof fn lemma_trim_start_push(s: Seq<char>, c: char)
    requires
        is_white_space(c),
    ensures
        trim_start(s).len() > 0 ==> trim_start(s.push(c)) == trim_start(s).push(c),
        trim_start(s).len() == 0 ==> trim_start(s.push(c)).len() == 0,
    decreases s.len(),
{
    if s.len() == 0 {
        assert(s.push(c)[0] == c);
        assert(s.push(c).drop_first() =~= Seq::<char>::empty());
        assert(trim_start(s.push(c)) == trim_start(Seq::<char>::empty()));
    } else if is_white_space(s[0]) {
        assert(s.push(c)[0] == s[0]);
        assert(s.push(c).drop_first() =~= s.drop_first().push(c));
        lemma_trim_start_push(s.drop_first(), c);
    } else {
        assert(s.push(c)[0] == s[0]);
    }
}

/// Trimming ignores white space added at the end.
proof fn lemma_trim_push_white(s: Seq<char>, c: char)
    requires
        is_white_space(c),
    ensures
        trim(s.push(c)) == trim(s),
{
    lemma_trim_start_push(s, c);
    let t = trim_start(s);
    if t.len() > 0 {
        assert(t.push(c).drop_last() =~= t);
    } else {
        assert(trim_end(trim_start(s.push(c))) == trim_start(s.push(c)));
        assert(trim_start(s.push(c)) =~= Seq::<char>::empty());
        assert(t =~= Seq::<char>::empty());
    }
}

/// A line ending in a carriage return (a `\r\n` line ending) reads like
/// the same line without it.
pub proof fn law_carriage_return_ignored(state: ScanView, line: nat, piece: Seq<char>)
    ensures
        scan_step(state, line, piece.push('\r')) == scan_step(state, line, piece),
{
    lemma_trim_push_white(piece, '\r');
}

/// A text of white space trims to nothing.
proof fn lemma_trim_white(s: Seq<char>)
    requires
        forall|i: int| 0 <= i < s.len() ==> is_white_space(#[trigger] s[i]),
    ensures
        trim(s).len() == 0,
    decreases s.len(),
{
    if s.len() > 0 {
        lemma_trim_white(s.drop_first());
        assert(trim_start(s) == trim_start(s.drop_first()));
    }
}

/// A blank last line, after a newline, does not change a query body.
pub proof fn law_trailing_blank_line_ignored(text: Seq<char>, blank: Seq<char>)
    requires
        forall|i: int| 0 <= i < blank.len() ==> #[trigger] is_white_space(blank[i]),
        forall|i: int| 0 <= i < blank.len() ==> #[trigger] blank[i] != '\n',
    ensures
        scan_text(text.push('\n') + blank) == scan_text(text),
{
    lemma_split_lines_concat(text, blank);
    lemma_split_lines_single(blank);
    lemma_trim_white(blank);
    let pieces = split_lines(text);
    assert(pieces + seq![blank] =~= pieces.push(blank));
    assert(pieces.push(blank).drop_last() =~= pieces);
}

/// Two scan outcomes that agree in everything but the number of a failing
/// line: equal where the scan runs to the end, and the same text, error
/// and column list where it stops.
pub open spec fn same_outcome(a: ScanView, b: ScanView) -> bool {
    match (a, b) {
        (ScanView::Running { .. }, ScanView::Running { .. }) => a == b,
        (
            ScanView::Failed { text: t1, error: e1, columns: c1, .. },
            ScanView::Failed { text: t2, error: e2, columns: c2, .. },
        ) => t1 == t2 && e1 == e2 && c1 == c2,
        _ => false,
    }
}

/// The scan of `pieces` from `state`, the first of them numbered
/// `before + 1`.
spec fn scan_on(state: ScanView, before: nat, pieces: Seq<Seq<char>>) -> ScanView
    decreases pieces.len(),
{
    if pieces.len() == 0 {
        state
    } else {
        scan_step(scan_on(state, before, pieces.drop_last()), before + pieces.len(), pieces.last())
    }
}

proof fn lemma_scan_pieces_on(pieces: Seq<Seq<char>>)
    ensures
        scan_pieces(pieces) == scan_on(
            ScanView::Running { metadata: None, columns: None, rows: Seq::empty() },
            0,
            pieces,
        ),
    decreases pieces.len(),
{
    if pieces.len() > 0 {
        lemma_scan_pieces_on(pieces.drop_last());
    }
}

proof fn lemma_scan_on_concat(state: ScanView, before: nat, p1: Seq<Seq<char>>, p2: Seq<Seq<char>>)
    ensures
        scan_on(state, before, p1 + p2) == scan_on(scan_on(state, before, p1), before + p1.len(), p2),
    decreases p2.len(),
{
    if p2.len() == 0 {
        assert(p1 + p2 =~= p1);
    } else {
        lemma_scan_on_concat(state, before, p1, p2.drop_last());
        assert((p1 + p2).drop_last() =~= p1 + p2.drop_last());
        assert((p1 + p2).last() == p2.last());
    }
}

/// Scans that agree up to line numbers go on agreeing, whatever lines follow.
proof fn lemma_same_outcome_on(a: ScanView, b: ScanView, n: nat, m: nat, pieces: Seq<Seq<char>>)
    requires
        same_outcome(a, b),
    ensures
        same_outcome(scan_on(a, n, pieces), scan_on(b, m, pieces)),
    decreases pieces.len(),
{
    if pieces.len() > 0 {
        lemma_same_outcome_on(a, b, n, m, pieces.drop_last());
    }
}

/// The scan of the pieces of `p1`, one piece `x` and the pieces of `p2`,
/// from the scan of `p1`.
proof fn lemma_scan_split(p1: Seq<Seq<char>>, x: Seq<char>, p2: Seq<Seq<char>>)
    ensures
        scan_pieces(p1 + seq![x] + p2) == scan_on(
            scan_step(scan_pieces(p1), p1.len() + 1, x),
            p1.len() + 1,
            p2,
        ),
        scan_pieces(p1 + p2) == scan_on(scan_pieces(p1), p1.len(), p2),
{
    let init = ScanView::Running { metadata: None, columns: None, rows: Seq::empty() };
    lemma_scan_pieces_on(p1 + seq![x] + p2);
    lemma_scan_pieces_on(p1 + p2);
    lemma_scan_pieces_on(p1);
    lemma_scan_on_concat(init, 0, p1 + seq![x], p2);
    lemma_scan_on_concat(init, 0, p1, seq![x]);
    lemma_scan_on_concat(init, 0, p1, p2);
    let one = seq![x];
    assert(one.drop_last() =~= Seq::<Seq<char>>::empty());
    assert(one.last() == x);
    let s1 = scan_pieces(p1);
    assert(scan_on(s1, p1.len(), one) == scan_step(scan_on(s1, p1.len(), one.drop_last()), p1.len() + 1, x));
    assert((p1 + one).len() == p1.len() + 1);
}

/// A blank line (nothing but white space) anywhere among the lines changes
/// nothing but the numbers of the lines after it.
pub proof fn law_blank_piece_ignored(p1: Seq<Seq<char>>, blank: Seq<char>, p2: Seq<Seq<char>>)
    requires
        forall|i: int| 0 <= i < blank.len() ==> #[trigger] is_white_space(blank[i]),
    ensures
        same_outcome(scan_pieces(p1 + seq![blank] + p2), scan_pieces(p1 + p2)),
{
    lemma_trim_white(blank);
    lemma_scan_split(p1, blank, p2);
    lemma_same_outcome_on(scan_pieces(p1), scan_pieces(p1), p1.len() + 1, p1.len(), p2);
}

/// White space in front of a text does not change where leading white
/// space ends.
proof fn lemma_trim_start_white_prefix(w: Seq<char>, s: Seq<char>)
    requires
        forall|i: int| 0 <= i < w.len() ==> #[trigger] is_white_space(w[i]),
    ensures
        trim_start(w + s) == trim_start(s),
    decreases w.len(),
{
    if w.len() == 0 {
        assert(w + s =~= s);
    } else {
        assert((w + s)[0] == w[0]);
        assert((w + s).drop_first() =~= w.drop_first() + s);
        lemma_trim_start_white_prefix(w.drop_first(), s);
    }
}

/// White space after a text is trimmed away.
proof fn lemma_trim_white_suffix(s: Seq<char>, w: Seq<char>)
    requires
        forall|i: int| 0 <= i < w.len() ==> #[trigger] is_white_space(w[i]),
    ensures
        trim(s + w) == trim(s),
    decreases w.len(),
{
    if w.len() == 0 {
        assert(s + w =~= s);
    } else {
        lemma_trim_white_suffix(s, w.drop_last());
        assert(s + w =~= (s + w.drop_last()).push(w.last()));
        lemma_trim_push_white(s + w.drop_last(), w.last());
    }
}

/// White space around the text of a line does not change how it reads.
pub proof fn law_white_space_around_line_ignored(
    state: ScanView,
    line: nat,
    front: Seq<char>,
    piece: Seq<char>,
    back: Seq<char>,
)
    requires
        forall|i: int| 0 <= i < front.len() ==> #[trigger] is_white_space(front[i]),
        forall|i: int| 0 <= i < back.len() ==> #[trigger] is_white_space(back[i]),
    ensures
        scan_step(state, line, front + piece + back) == scan_step(state, line, piece),
{
    lemma_trim_white_suffix(front + piece, back);
    lemma_trim_start_white_prefix(front, piece);
}

/// A line with white space around its text, among other lines, leaves the
/// scan as it is.
pub proof fn law_padded_piece_ignored(
    p1: Seq<Seq<char>>,
    front: Seq<char>,
    piece: Seq<char>,
    back: Seq<char>,
    p2: Seq<Seq<char>>,
)
    requires
        forall|i: int| 0 <= i < front.len() ==> #[trigger] is_white_space(front[i]),
        forall|i: int| 0 <= i < back.len() ==> #[trigger] is_white_space(back[i]),
    ensures
        scan_pieces(p1 + seq![front + piece + back] + p2) == scan_pieces(p1 + seq![piece] + p2),
{
    law_white_space_around_line_ignored(scan_pieces(p1), p1.len() + 1, front, piece, back);
    lemma_scan_split(p1, front + piece + back, p2);
    lemma_scan_split(p1, piece, p2);
}

/// The pieces of two texts joined by a newline are the pieces of each.
proof fn lemma_split_lines_concat(a: Seq<char>, c: Seq<char>)
    ensures
        split_lines(a.push('\n') + c) == split_lines(a) + split_lines(c),
    decreases c.len(),
{
    let x = a.push('\n') + c;
    if c.len() == 0 {
        assert(x =~= a.push('\n'));
        assert(a.push('\n').drop_last() =~= a);
        assert(split_lines(c) =~= seq![Seq::<char>::empty()]);
        assert(split_lines(a).push(Seq::<char>::empty()) =~= split_lines(a) + split_lines(c));
    } else {
        let shorter = c.drop_last();
        lemma_split_lines_concat(a, shorter);
        lemma_split_lines_nonempty(shorter);
        assert(x.drop_last() =~= a.push('\n') + shorter);
        assert(x.last() == c.last());
        let sa = split_lines(a);
        let sc = split_lines(shorter);
        if c.last() == '\n' {
            assert((sa + sc).push(Seq::<char>::empty()) =~= sa + sc.push(Seq::<char>::empty()));
        } else {
            assert((sa + sc).update((sa + sc).len() - 1, (sa + sc).last().push(c.last())) =~= sa
                + sc.update(sc.len() - 1, sc.last().push(c.last())));
        }
    }
}

/// A text without newlines is one piece.
proof fn lemma_split_lines_single(s: Seq<char>)
    requires
        forall|i: int| 0 <= i < s.len() ==> #[trigger] s[i] != '\n',
    ensures
        split_lines(s) == seq![s],
    decreases s.len(),
{
    if s.len() == 0 {
        assert(s =~= Seq::<char>::empty());
    } else {
        let shorter = s.drop_last();
        assert(s[s.len() - 1] != '\n');
        lemma_split_lines_single(shorter);
        assert(shorter.push(s.last()) =~= s);
        assert(seq![shorter].update(0, shorter.push(s.last())) =~= seq![s]);
    }
}

/// A blank line between two lines of a query body changes nothing but the
/// numbers of the lines after it.
pub proof fn law_blank_line_ignored(before: Seq<char>, blank: Seq<char>, after: Seq<char>)
    requires
        forall|i: int| 0 <= i < blank.len() ==> #[trigger] is_white_space(blank[i]),
        forall|i: int| 0 <= i < blank.len() ==> #[trigger] blank[i] != '\n',
    ensures
        same_outcome(
            scan_text(before.push('\n') + blank.push('\n') + after),
            scan_text(before.push('\n') + after),
        ),
{
    let first = before.push('\n') + blank;
    assert(before.push('\n') + blank.push('\n') + after =~= first.push('\n') + after);
    lemma_split_lines_concat(first, after);
    lemma_split_lines_concat(before, blank);
    lemma_split_lines_concat(before, after);
    lemma_split_lines_single(blank);
    law_blank_piece_ignored(split_lines(before), blank, split_lines(after));
}

/// A blank first line of a query body changes nothing but the numbers of
/// the lines after it.
pub proof fn law_leading_blank_line_ignored(blank: Seq<char>, after: Seq<char>)
    requires
        forall|i: int| 0 <= i < blank.len() ==> #[trigger] is_white_space(blank[i]),
        forall|i: int| 0 <= i < blank.len() ==> #[trigger] blank[i] != '\n',
    ensures
        same_outcome(scan_text(blank.push('\n') + after), scan_text(after)),
{
    lemma_split_lines_concat(blank, after);
    lemma_split_lines_single(blank);
    let none = Seq::<Seq<char>>::empty();
    assert(seq![blank] + split_lines(after) =~= none + seq![blank] + split_lines(after));
    assert(split_lines(after) =~= none + split_lines(after));
    law_blank_piece_ignored(none, blank, split_lines(after));
}

/// White space around the text of a line of a query body, between two
/// other lines, leaves the scan as it is.
pub proof fn law_padded_line_ignored(
    before: Seq<char>,
    front: Seq<char>,
    line: Seq<char>,
    back: Seq<char>,
    after: Seq<char>,
)
    requires
        forall|i: int| 0 <= i < front.len() ==> #[trigger] is_white_space(front[i]),
        forall|i: int| 0 <= i < front.len() ==> #[trigger] front[i] != '\n',
        forall|i: int| 0 <= i < back.len() ==> #[trigger] is_white_space(back[i]),
        forall|i: int| 0 <= i < back.len() ==> #[trigger] back[i] != '\n',
        forall|i: int| 0 <= i < line.len() ==> #[trigger] line[i] != '\n',
    ensures
        scan_text(before.push('\n') + (front + line + back).push('\n') + after) == scan_text(
            before.push('\n') + line.push('\n') + after,
        ),
{
    let padded = front + line + back;
    assert forall|i: int| 0 <= i < padded.len() implies #[trigger] padded[i] != '\n' by {
        if i < front.len() {
            assert(padded[i] == front[i]);
        } else if i < front.len() + line.len() {
            assert(padded[i] == line[i - front.len()]);
        } else {
            assert(padded[i] == back[i - front.len() - line.len()]);
        }
    }
    let a = before.push('\n') + padded;
    let b = before.push('\n') + line;
    assert(before.push('\n') + padded.push('\n') + after =~= a.push('\n') + after);
    assert(before.push('\n') + line.push('\n') + after =~= b.push('\n') + after);
    lemma_split_lines_concat(a, after);
    lemma_split_lines_concat(b, after);
    lemma_split_lines_concat(before, padded);
    lemma_split_lines_concat(before, line);
    lemma_split_lines_single(padded);
    lemma_split_lines_single(line);
    law_padded_piece_ignored(split_lines(before), front, line, back, split_lines(after));
}

/// The lines of `pieces` that hold more than white space, in order.
pub open spec fn nonblank_pieces(pieces: Seq<Seq<char>>) -> Seq<Seq<char>>
    decreases pieces.len(),
{
    if pieces.len() == 0 {
        Seq::empty()
    } else {
        let init = nonblank_pieces(pieces.drop_last());
        if trim(pieces.last()).len() == 0 {
            init
        } else {
            init.push(pieces.last())
        }
    }
}

/// What a body says, line by line: its non-blank lines without the white
/// space around them. Blank lines, white space around a line and `\r\n`
/// line endings leave it unchanged.
pub open spec fn content_lines(pieces: Seq<Seq<char>>) -> Seq<Seq<char>> {
    nonblank_pieces(pieces).map_values(|piece: Seq<char>| trim(piece))
}

proof fn lemma_same_outcome_symmetric(a: ScanView, b: ScanView)
    requires
        same_outcome(a, b),
    ensures
        same_outcome(b, a),
{
}

proof fn lemma_same_outcome_transitive(a: ScanView, b: ScanView, c: ScanView)
    requires
        same_outcome(a, b),
        same_outcome(b, c),
    ensures
        same_outcome(a, c),
{
}

/// Lines that trim to the same text move scans that agree up to line
/// numbers to scans that still agree.
proof fn lemma_same_outcome_step(a: ScanView, b: ScanView, n: nat, m: nat, x: Seq<char>, y: Seq<char>)
    requires
        same_outcome(a, b),
        trim(x) == trim(y),
    ensures
        same_outcome(scan_step(a, n, x), scan_step(b, m, y)),
{
}

/// Skipping the blank lines changes a scan only in its line numbers.
proof fn lemma_scan_nonblank(a: ScanView, b: ScanView, n: nat, m: nat, pieces: Seq<Seq<char>>)
    requires
        same_outcome(a, b),
    ensures
        same_outcome(scan_on(a, n, pieces), scan_on(b, m, nonblank_pieces(pieces))),
    decreases pieces.len(),
{
    if pieces.len() > 0 {
        let init = pieces.drop_last();
        let x = pieces.last();
        lemma_scan_nonblank(a, b, n, m, init);
        let left = scan_on(a, n, init);
        let right = scan_on(b, m, nonblank_pieces(init));
        if trim(x).len() == 0 {
            assert(scan_step(left, n + pieces.len(), x) == left);
        } else {
            let kept = nonblank_pieces(pieces);
            assert(kept.drop_last() =~= nonblank_pieces(init));
            assert(kept.last() == x);
            lemma_same_outcome_step(left, right, n + pieces.len(), m + kept.len(), x, x);
        }
    }
}

/// Lines that trim to the same texts, one for one, give scans that agree
/// up to line numbers.
proof fn lemma_scan_same_trims(
    a: ScanView,
    b: ScanView,
    n: nat,
    m: nat,
    p: Seq<Seq<char>>,
    q: Seq<Seq<char>>,
)
    requires
        same_outcome(a, b),
        p.len() == q.len(),
        forall|i: int| 0 <= i < p.len() ==> trim(#[trigger] p[i]) == trim(q[i]),
    ensures
        same_outcome(scan_on(a, n, p), scan_on(b, m, q)),
    decreases p.len(),
{
    if p.len() > 0 {
        let (p1, q1) = (p.drop_last(), q.drop_last());
        assert forall|i: int| 0 <= i < p1.len() implies trim(#[trigger] p1[i]) == trim(q1[i]) by {
            assert(p1[i] == p[i] && q1[i] == q[i]);
        }
        lemma_scan_same_trims(a, b, n, m, p1, q1);
        assert(trim(p[p.len() - 1]) == trim(q[q.len() - 1]));
        lemma_same_outcome_step(
            scan_on(a, n, p1),
            scan_on(b, m, q1),
            n + p.len(),
            m + q.len(),
            p.last(),
            q.last(),
        );
    }
}

/// Two sequences of lines with the same content scan to the same outcome:
/// the same metadata, column list and rows where the scan reads to the
/// end, and the same failing text where it stops, whatever blank lines,
/// white space around lines and carriage returns tell them apart.
pub proof fn law_scan_depends_on_content(p: Seq<Seq<char>>, q: Seq<Seq<char>>)
    requires
        content_lines(p) == content_lines(q),
    ensures
        same_outcome(scan_pieces(p), scan_pieces(q)),
{
    let init = ScanView::Running { metadata: None, columns: None, rows: Seq::empty() };
    let (np, nq) = (nonblank_pieces(p), nonblank_pieces(q));
    lemma_scan_pieces_on(p);
    lemma_scan_pieces_on(q);
    lemma_scan_nonblank(init, init, 0, 0, p);
    lemma_scan_nonblank(init, init, 0, 0, q);
    assert(np.len() == content_lines(p).len());
    assert(nq.len() == content_lines(q).len());
    assert forall|i: int| 0 <= i < np.len() implies trim(#[trigger] np[i]) == trim(nq[i]) by {
        assert(content_lines(p)[i] == trim(np[i]));
        assert(content_lines(q)[i] == trim(nq[i]));
    }
    lemma_scan_same_trims(init, init, 0, 0, np, nq);
    lemma_same_outcome_symmetric(scan_on(init, 0, q), scan_on(init, 0, nq));
    lemma_same_outcome_transitive(scan_on(init, 0, p), scan_on(init, 0, np), scan_on(init, 0, nq));
    lemma_same_outcome_transitive(scan_on(init, 0, p), scan_on(init, 0, nq), scan_on(init, 0, q));
}

/// Two query bodies whose lines have the same content decode alike: blank
/// lines anywhere, white space around any lines and `\r\n` line endings,
/// in any number and combination, change at most the numbers of the lines
/// that an error names.
pub proof fn law_query_body_depends_on_content(a: Seq<char>, b: Seq<char>)
    requires
        content_lines(split_lines(a)) == content_lines(split_lines(b)),
    ensures
        same_outcome(scan_text(a), scan_text(b)),
{
    law_scan_depends_on_content(split_lines(a), split_lines(b));
}

/// A line holding a JSON value, read by a scan that already has its
/// metadata and its column list, adds that value as the last row and
/// changes nothing else: no row is ever dropped, however many came before.
pub proof fn law_every_later_value_is_a_row(
    metadata: serde_json::Value,
    columns: serde_json::Value,
    rows: Seq<serde_json::Value>,
    line: nat,
    piece: Seq<char>,
    value: serde_json::Value,
)
    requires
        trim(piece).len() > 0,
        json_from_str_result(trim(piece)) == Ok::<serde_json::Value, serde_json::Error>(value),
    ensures
        scan_step(
            ScanView::Running { metadata: Some(metadata), columns: Some(columns), rows },
            line,
            piece,
        ) == (ScanView::Running { metadata: Some(metadata), columns: Some(columns), rows: rows.push(value) }),
{
}

/// The first value of a body is its metadata, whatever it holds.
pub proof fn law_first_value_is_metadata(line: nat, piece: Seq<char>, value: serde_json::Value)
    requires
        trim(piece).len() > 0,
        json_from_str_result(trim(piece)) == Ok::<serde_json::Value, serde_json::Error>(value),
    ensures
        scan_step(
            ScanView::Running { metadata: None, columns: None, rows: Seq::empty() },
            line,
            piece,
        ) == (ScanView::Running { metadata: Some(value), columns: None, rows: Seq::empty() }),
{
}

/// After the metadata, the first value shaped like a column list is the
/// column list; any other value is a row.
pub proof fn law_first_column_list_is_kept(
    metadata: serde_json::Value,
    rows: Seq<serde_json::Value>,
    line: nat,
    piece: Seq<char>,
    value: serde_json::Value,
)
    requires
        trim(piece).len() > 0,
        json_from_str_result(trim(piece)) == Ok::<serde_json::Value, serde_json::Error>(value),
    ensures
        is_columns_shape(value) ==> scan_step(
            ScanView::Running { metadata: Some(metadata), columns: None, rows },
            line,
            piece,
        ) == (ScanView::Running { metadata: Some(metadata), columns: Some(value), rows }),
        !is_columns_shape(value) ==> scan_step(
            ScanView::Running { metadata: Some(metadata), columns: None, rows },
            line,
            piece,
        ) == (ScanView::Running { metadata: Some(metadata), columns: None, rows: rows.push(value) }),
{
}

/// A line that is no JSON stops a running scan, naming that line, its
/// trimmed text and the parser's error, and keeping the column list.
pub proof fn law_bad_line_stops_the_scan(
    state: ScanView,
    line: nat,
    piece: Seq<char>,
    error: serde_json::Error,
)
    requires
        state is Running,
        trim(piece).len() > 0,
        json_from_str_result(trim(piece)) == Err::<serde_json::Value, serde_json::Error>(error),
    ensures
        scan_step(state, line, piece) == (ScanView::Failed {
            line,
            text: trim(piece),
            error,
            columns: state->Running_columns,
        }),
{
}

/// A built client's HTTP client has the configured connect timeout as its
/// connect timeout and the configured request timeout as its request
/// timeout, keeps 8 idle connections per host and a 60 second keep-alive.
pub proof fn law_client_uses_configured_timeouts(
    r: Result<AltertableClient, crate::error::AltertableError>,
    config: ConfigView,
)
    requires
        client_result(r, config),
    ensures
        r matches Ok(c) ==> http_client_settings(c.http_view()).0 == config.connect_timeout,
        r matches Ok(c) ==> http_client_settings(c.http_view()).1 == config.request_timeout,
        r matches Ok(c) ==> http_client_settings(c.http_view()).2 == 8usize,
        r matches Ok(c) ==> http_client_settings(c.http_view()).3 == duration_of_secs(60),
{
}

/// A builder's timeouts are those it was given, else 5 seconds to connect
/// and 60 seconds for a request; the base URL is the one given, else the
/// public API.
pub proof fn law_builder_defaults(b: BuilderView, auth: AuthView)
    ensures
        builder_config(b, auth).connect_timeout == match b.connect_timeout {
            Some(t) => t,
            None => duration_of_secs(5),
        },
        builder_config(b, auth).request_timeout == match b.request_timeout {
            Some(t) => t,
            None => duration_of_secs(60),
        },
        builder_config(b, auth).base_url == match b.base_url {
            Some(u) => u,
            None => "https://api.altertable.ai"@,
        },
        builder_config(b, auth).auth == auth,
{
}

/// How a non-success status maps onto an error: 401 and 403 are
/// authentication errors, 400 (and only 400) a bad request, and every other
/// code, every 5xx among them, an API error that keeps a non-empty body.
/// The message is the body, or a default one for an empty body; the
/// context is kept.
pub proof fn law_status_errors(context: ContextView, code: u16, body: Seq<char>)
    ensures
        (status_error(context, code, body) is BadRequest) == (code == 400),
        (status_error(context, code, body) is Auth) == (code == 401 || code == 403),
        (status_error(context, code, body) is Api) == (code != 400 && code != 401 && code != 403),
        status_error(context, code, body) matches ErrorView::Api { body: kept, .. } ==> kept == (
        if body.len() == 0 {
            None
        } else {
            Some(body)
        }),
        body.len() > 0 ==> match status_error(context, code, body) {
            ErrorView::Auth { context: c, message } => c == context && message == body,
            ErrorView::BadRequest { context: c, message } => c == context && message == body,
            ErrorView::Api { context: c, message, .. } => c == context && message == body,
            _ => false,
        },
{
}

/// The names the API knows the upload formats and modes by: the variant
/// names in lower case.
pub proof fn law_wire_names()
    ensures
        format_name(UploadFormat::Csv) == "csv"@,
        format_name(UploadFormat::Json) == "json"@,
        format_name(UploadFormat::Parquet) == "parquet"@,
        mode_name(UploadMode::Create) == "create"@,
        mode_name(UploadMode::Append) == "append"@,
        mode_name(UploadMode::Upsert) == "upsert"@,
        mode_name(UploadMode::Overwrite) == "overwrite"@,
{
}

/// The upload formats, and the upload modes, have distinct names.
pub proof fn law_wire_names_distinct(f1: UploadFormat, f2: UploadFormat, m1: UploadMode, m2: UploadMode)
    ensures
        format_name(f1) == format_name(f2) ==> f1 == f2,
        mode_name(m1) == mode_name(m2) ==> m1 == m2,
{
    reveal_strlit("csv");
    reveal_strlit("json");
    reveal_strlit("parquet");
    reveal_strlit("create");
    reveal_strlit("append");
    reveal_strlit("upsert");
    reveal_strlit("overwrite");
    if format_name(f1) == format_name(f2) && f1 != f2 {
        assert(format_name(f1)[0] != format_name(f2)[0] || format_name(f1).len() != format_name(f2).len());
    }
    if mode_name(m1) == mode_name(m2) && m1 != m2 {
        assert(mode_name(m1)[0] != mode_name(m2)[0] || mode_name(m1).len() != mode_name(m2).len());
    }
}

/// An upload sends its catalog, schema, table, format and mode as query
/// parameters, in that order, then the primary key where there is one.
pub proof fn law_upload_parameters(
    catalog: Seq<char>,
    schema: Seq<char>,
    table: Seq<char>,
    format: UploadFormat,
    mode: UploadMode,
    primary_key: Option<Seq<char>>,
)
    ensures
        upload_query(catalog, schema, table, format, mode, primary_key).len() == if primary_key is Some {
            6int
        } else {
            5int
        },
        upload_query(catalog, schema, table, format, mode, primary_key)[0] == ("catalog"@, catalog),
        upload_query(catalog, schema, table, format, mode, primary_key)[1] == ("schema"@, schema),
        upload_query(catalog, schema, table, format, mode, primary_key)[2] == ("table"@, table),
        upload_query(catalog, schema, table, format, mode, primary_key)[3] == ("format"@, format_name(format)),
        upload_query(catalog, schema, table, format, mode, primary_key)[4] == ("mode"@, mode_name(mode)),
        primary_key matches Some(k) ==> upload_query(catalog, schema, table, format, mode, primary_key)[5]
            == ("primary_key"@, k),
{
}

/// A plan carries what it was made with: its call, method, path, query
/// parameters, headers and body unchanged, and the URL of its path under
/// the client's base URL.
pub proof fn law_plan_keeps_its_parts(
    client: AltertableClient,
    operation: Seq<char>,
    method: HttpMethod,
    path: Seq<char>,
    query: Seq<(Seq<char>, Seq<char>)>,
    accept: Option<Seq<char>>,
    content_type: Option<Seq<char>>,
    body: BodyView,
)
    ensures
        plan_for(client, operation, method, path, query, accept, content_type, body).operation == operation,
        plan_for(client, operation, method, path, query, accept, content_type, body).method == method,
        plan_for(client, operation, method, path, query, accept, content_type, body).path == path,
        plan_for(client, operation, method, path, query, accept, content_type, body).url == url_text(
            client.config_view().base_url,
            path,
        ),
        plan_for(client, operation, method, path, query, accept, content_type, body).query == query,
        plan_for(client, operation, method, path, query, accept, content_type, body).accept == accept,
        plan_for(client, operation, method, path, query, accept, content_type, body).content_type
            == content_type,
        plan_for(client, operation, method, path, query, accept, content_type, body).body == body,
{
}

/// 2xx statuses are successes and 5xx statuses server errors, which are
/// the ones worth retrying.
pub proof fn law_status_classes(status: u16)
    ensures
        is_success(status) == (200 <= status && status <= 299),
        is_server_error(status) == (500 <= status && status <= 599),
{
}

/// A base URL that does not end in a slash is joined to the path as it is;
/// in every case the URL ends in the path.
pub proof fn law_url_joins_base_and_path(base: Seq<char>, path: Seq<char>)
    ensures
        base.len() == 0 || base.last() != '/' ==> url_text(base, path) == base + path,
        url_text(base, path).len() >= path.len(),
        url_text(base, path).skip(url_text(base, path).len() - path.len()) == path,
{
    let u = url_text(base, path);
    assert(u.skip(u.len() - path.len()) =~= path);
}

/// A non-blank token given to the builder decides the credentials: it is
/// used trimmed, whatever else was given or the environment holds.
pub proof fn law_given_token_wins(
    username: Option<Seq<char>>,
    password: Option<Seq<char>>,
    token: Seq<char>,
    env: EnvView,
)
    requires
        trim(token).len() > 0,
    ensures
        auth_outcome(username, password, Some(token), env) == Ok::<AuthView, Seq<char>>(
            AuthView::BasicToken(trim(token)),
        ),
{
}

/// With no token given, a non-blank token in the environment decides the
/// credentials, trimmed.
pub proof fn law_environment_token_next(
    username: Option<Seq<char>>,
    password: Option<Seq<char>>,
    token: Seq<char>,
    env: EnvView,
)
    requires
        env.basic_auth_token == Some(token),
        trim(token).len() > 0,
    ensures
        auth_outcome(username, password, None, env) == Ok::<AuthView, Seq<char>>(
            AuthView::BasicToken(trim(token)),
        ),
{
}

/// With no token anywhere, the credentials are a user name and a password,
/// each the one given or else the environment's, and there are some exactly
/// when both are there and non-empty.
pub proof fn law_user_and_password(
    username: Option<Seq<char>>,
    password: Option<Seq<char>>,
    env: EnvView,
)
    requires
        env.basic_auth_token is None,
    ensures
        ({
            let user = if username is Some { username } else { env.username };
            let pass = if password is Some { password } else { env.password };
            &&& (auth_outcome(username, password, None, env) is Ok) == (user is Some && pass is Some
                && user->0.len() > 0 && pass->0.len() > 0)
            &&& auth_outcome(username, password, None, env) is Ok ==> auth_outcome(
                username,
                password,
                None,
                env,
            ) == Ok::<AuthView, Seq<char>>(AuthView::Basic { username: user->0, password: pass->0 })
        }),
{
}

/// The names of the HTTP methods.
pub proof fn law_method_names()
    ensures
        method_name(HttpMethod::Get) == "GET"@,
        method_name(HttpMethod::Post) == "POST"@,
        method_name(HttpMethod::Delete) == "DELETE"@,
{
}

/// A user agent suffix is added after the default user agent and a space.
pub proof fn law_user_agent_suffix(suffix: Seq<char>)
    ensures
        user_agent_text(Some(suffix)) == user_agent_text(None) + " "@ + suffix,
{
}

/// An error reads as its message; a parse error that knows its line adds
/// ` (line N)` after it, and nothing else adds anything.
pub proof fn law_error_reads_as_its_message(e: ErrorView)
    ensures
        error_text(e).len() >= message_of(e).len(),
        error_text(e).take(message_of(e).len() as int) == message_of(e),
        e matches ErrorView::Parse { line: Some(n), .. } ==> error_text(e) == message_of(e) + " (line "@
            + decimal(n as nat) + ")"@,
        !(e matches ErrorView::Parse { line: Some(_), .. }) ==> error_text(e) == message_of(e),
{
    let m = message_of(e);
    assert(error_text(e).take(m.len() as int) =~= m);
}

/// The number that decimal digits stand for.
pub open spec fn digits_value(s: Seq<char>) -> int
    decreases s.len(),
{
    if s.len() == 0 {
        0
    } else {
        digits_value(s.drop_last()) * 10 + (s.last() as int - '0' as int)
    }
}

proof fn lemma_digit_char(d: nat)
    requires
        d < 10,
    ensures
        digit_char(d) as int == '0' as int + d,
{
    let ds = seq!['0', '1', '2', '3', '4', '5', '6', '7', '8', '9'];
    assert(digit_char(d) == ds[d as int]);
    if d == 0 {} else if d == 1 {} else if d == 2 {} else if d == 3 {} else if d == 4 {
    } else if d == 5 {} else if d == 6 {} else if d == 7 {} else if d == 8 {} else {}
}

/// The decimal rendering of a number is made of digits, stands for that
/// number, and starts with a zero only for zero itself.
pub proof fn law_decimal_renders_the_number(n: nat)
    ensures
        decimal(n).len() >= 1,
        forall|i: int| 0 <= i < decimal(n).len() ==> '0' <= #[trigger] decimal(n)[i] <= '9',
        digits_value(decimal(n)) == n,
        n > 0 ==> decimal(n)[0] != '0',
    decreases n,
{
    lemma_digit_char(n % 10);
    if n < 10 {
        let s = decimal(n);
        assert(s.drop_last() =~= Seq::<char>::empty());
        assert(digits_value(Seq::<char>::empty()) == 0);
        assert(s.last() == digit_char(n));
        assert(n % 10 == n);
    } else {
        let q = n / 10;
        law_decimal_renders_the_number(q);
        let s = decimal(n);
        assert(s.drop_last() =~= decimal(q));
        assert(s[0] == decimal(q)[0]);
        assert(n == q * 10 + n % 10);
        assert(s.last() == digit_char(n % 10));
        assert(digits_value(s) == digits_value(decimal(q)) * 10 + (s.last() as int - '0' as int));
        assert forall|i: int| 0 <= i < s.len() implies '0' <= #[trigger] s[i] <= '9' by {
            if i < s.len() - 1 {
                assert(s[i] == decimal(q)[i]);
            }
        }
    }
}

} // verus!
