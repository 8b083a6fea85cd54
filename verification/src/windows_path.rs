//! Paths of Windows: their prefixes, the name of the file that they end in, and what is below them.
//!
//! A path may start with a prefix: a drive (`C:`), a share of a server (`\\server\share`) or a device
//! (`\\.\COM42`). A verbatim prefix starts with `\\?\`; behind it only a backslash separates the parts
//! of a path, and a part `.` is a name like others.
use crate::text;
use vstd::prelude::*;

verus! {

/// Whether a character separates the parts of a path.
pub open spec fn is_separator(c: char) -> bool {
    c == '\\' || c == '/'
}

/// Whether a character separates the parts of a path that is verbatim or not.
pub open spec fn separates(c: char, verbatim: bool) -> bool {
    if verbatim {
        c == '\\'
    } else {
        is_separator(c)
    }
}

/// Whether a path is verbatim: it starts with `\\?\`, written with backslashes.
pub open spec fn is_verbatim(path: Seq<char>) -> bool {
    path.len() >= 4 && path[0] == '\\' && path[1] == '\\' && path[2] == '?' && path[3] == '\\'
}

/// Whether a drive is named at an index: a letter and a colon.
pub open spec fn is_drive_at(path: Seq<char>, at: int) -> bool {
    path.len() >= at + 2 && ('a' <= path[at] <= 'z' || 'A' <= path[at] <= 'Z') && path[at + 1]
        == ':'
}

/// Where the part of a path ends that starts at an index.
pub open spec fn part_end(path: Seq<char>, from: int, verbatim: bool) -> int
    decreases path.len() - from,
{
    if from >= path.len() || separates(path[from], verbatim) {
        from
    } else {
        part_end(path, from + 1, verbatim)
    }
}

/// Where the share ends that is named behind a server. Without a share this is the server's end.
pub open spec fn share_end(path: Seq<char>, server_end: int, verbatim: bool) -> int {
    if server_end < path.len() && part_end(path, server_end + 1, verbatim) > server_end + 1 {
        part_end(path, server_end + 1, verbatim)
    } else {
        server_end
    }
}

/// Where the prefix of a verbatim path ends: a share behind `UNC\`, a drive, or else one part.
pub open spec fn verbatim_prefix_end(path: Seq<char>) -> int {
    if path.len() >= 8 && path[4] == 'U' && path[5] == 'N' && path[6] == 'C' && is_separator(
        path[7],
    ) {
        share_end(path, part_end(path, 8, true), true)
    } else if is_drive_at(path, 4) && (path.len() == 6 || is_separator(path[6])) {
        6
    } else {
        part_end(path, 4, true)
    }
}

/// Where the prefix of a path ends that starts with two separators and is not verbatim: a device
/// behind `.\`, or else a server and its share, if both are named.
pub open spec fn network_prefix_end(path: Seq<char>) -> int {
    if path.len() >= 4 && path[2] == '.' && is_separator(path[3]) {
        part_end(path, 4, false)
    } else {
        let server_end = part_end(path, 2, false);
        if server_end > 2 && share_end(path, server_end, false) > server_end {
            share_end(path, server_end, false)
        } else {
            0
        }
    }
}

/// Where the prefix of a path ends.
pub open spec fn prefix_end(path: Seq<char>) -> int {
    if is_verbatim(path) {
        verbatim_prefix_end(path)
    } else if path.len() >= 2 && is_separator(path[0]) && is_separator(path[1]) {
        network_prefix_end(path)
    } else if is_drive_at(path, 0) {
        2
    } else {
        0
    }
}

/// Where the parts of a path start: behind the prefix, and behind the separator that stands for the
/// root.
pub open spec fn body_start(path: Seq<char>) -> int {
    let end = prefix_end(path);
    if end < path.len() && is_separator(path[end]) {
        end + 1
    } else {
        end
    }
}

/// What follows the last separator.
pub open spec fn last_part(body: Seq<char>, verbatim: bool) -> Seq<char>
    decreases body.len(),
{
    if body.len() == 0 || separates(body.last(), verbatim) {
        Seq::empty()
    } else {
        last_part(body.drop_last(), verbatim).push(body.last())
    }
}

/// The last part that names something: empty parts are passed over, and parts `.` too where the path
/// is not verbatim.
pub open spec fn last_name(body: Seq<char>, verbatim: bool) -> Seq<char>
    decreases body.len(),
{
    let part = last_part(body, verbatim);
    if part.len() == 0 || (!verbatim && part == seq!['.']) {
        if part.len() < body.len() {
            last_name(body.take(body.len() - part.len() - 1), verbatim)
        } else {
            Seq::empty()
        }
    } else {
        part
    }
}

/// The name of the file that a path ends in. A path that ends in a prefix, in the root, in the
/// directory itself or in the one above has none.
pub open spec fn file_name(path: Seq<char>) -> Option<Seq<char>> {
    let name = last_name(path.skip(body_start(path)), is_verbatim(path));
    if name.len() == 0 || name == seq!['.'] || name == seq!['.', '.'] {
        None
    } else {
        Some(name)
    }
}

/// The parts of a verbatim path, each with a backslash before it. Empty parts are left out.
pub open spec fn with_backslashes(body: Seq<char>) -> Seq<char>
    decreases body.len(),
{
    if body.len() == 0 {
        Seq::empty()
    } else if body.last() == '\\' {
        with_backslashes(body.drop_last())
    } else if body.len() == 1 || body[body.len() - 2] == '\\' {
        with_backslashes(body.drop_last()).push('\\').push(body.last())
    } else {
        with_backslashes(body.drop_last()).push(body.last())
    }
}

/// A path with one behind it that is made of names. One separator stands between them, but none
/// behind a bare drive: that path is relative to the directory in which the drive is. A verbatim path
/// is written anew.
pub open spec fn windows_join(base: Seq<char>, name: Seq<char>) -> Seq<char> {
    if is_verbatim(base) && name.len() > 0 {
        base.take(prefix_end(base)) + with_backslashes(base.skip(body_start(base))) + seq!['\\']
            + name
    } else if base.len() == 0 || is_separator(base.last()) || (is_drive_at(base, 0) && base.len()
        == 2) {
        base + name
    } else {
        base + seq!['\\'] + name
    }
}

fn separates_parts(c: char, verbatim: bool) -> (r: bool)
    ensures
        r == separates(c, verbatim),
{
    c == '\\' || (!verbatim && c == '/')
}

fn starts_verbatim(path: &Vec<char>) -> (r: bool)
    ensures
        r == is_verbatim(path@),
{
    path.len() >= 4 && path[0] == '\\' && path[1] == '\\' && path[2] == '?' && path[3] == '\\'
}

fn names_drive(path: &Vec<char>, at: usize) -> (r: bool)
    requires
        at <= 4,
    ensures
        r == is_drive_at(path@, at as int),
{
    if path.len() < at + 2 {
        return false;
    }
    let letter: char = path[at];
    (('a' <= letter && letter <= 'z') || ('A' <= letter && letter <= 'Z')) && path[at + 1] == ':'
}

/// Finds where the part ends that starts at an index.
fn find_part_end(path: &Vec<char>, from: usize, verbatim: bool) -> (r: usize)
    requires
        from <= path@.len(),
    ensures
        from <= r <= path@.len(),
        r == part_end(path@, from as int, verbatim),
{
    let mut end: usize = from;
    while end < path.len() && !separates_parts(path[end], verbatim)
        invariant
            from <= end <= path@.len(),
            part_end(path@, from as int, verbatim) == part_end(path@, end as int, verbatim),
        decreases path@.len() - end,
    {
        end = end + 1;
    }
    end
}

/// Finds where the share ends that is named behind a server.
fn find_share_end(path: &Vec<char>, server_end: usize, verbatim: bool) -> (r: usize)
    requires
        server_end <= path@.len(),
    ensures
        server_end <= r <= path@.len(),
        r == share_end(path@, server_end as int, verbatim),
{
    if server_end < path.len() {
        let end: usize = find_part_end(path, server_end + 1, verbatim);
        if end > server_end + 1 {
            return end;
        }
    }
    server_end
}

/// Finds where the prefix of a path ends.
fn find_prefix_end(path: &Vec<char>) -> (r: usize)
    ensures
        r <= path@.len(),
        r == prefix_end(path@),
{
    if starts_verbatim(path) {
        if path.len() >= 8 && path[4] == 'U' && path[5] == 'N' && path[6] == 'C' && separates_parts(
            path[7],
            false,
        ) {
            let server_end: usize = find_part_end(path, 8, true);
            find_share_end(path, server_end, true)
        } else if names_drive(path, 4) && (path.len() == 6 || separates_parts(path[6], false)) {
            6
        } else {
            find_part_end(path, 4, true)
        }
    } else if path.len() >= 2 && separates_parts(path[0], false) && separates_parts(path[1], false) {
        if path.len() >= 4 && path[2] == '.' && separates_parts(path[3], false) {
            find_part_end(path, 4, false)
        } else {
            let server_end: usize = find_part_end(path, 2, false);
            let end: usize = find_share_end(path, server_end, false);
            if server_end > 2 && end > server_end {
                end
            } else {
                0
            }
        }
    } else if names_drive(path, 0) {
        2
    } else {
        0
    }
}

/// Finds where the parts of a path start, from where its prefix ends.
fn find_body_start(path: &Vec<char>, prefix: usize) -> (r: usize)
    requires
        prefix == prefix_end(path@),
        prefix <= path@.len(),
    ensures
        r <= path@.len(),
        r == body_start(path@),
{
    if prefix < path.len() && separates_parts(path[prefix], false) {
        prefix + 1
    } else {
        prefix
    }
}

/// Finds where the last part of `path[from..end]` starts.
fn find_last_part(path: &Vec<char>, from: usize, end: usize, verbatim: bool) -> (r: usize)
    requires
        from <= end <= path@.len(),
    ensures
        from <= r <= end,
        path@.subrange(r as int, end as int) == last_part(
            path@.subrange(from as int, end as int),
            verbatim,
        ),
{
    let ghost body = path@.subrange(from as int, end as int);
    let mut start: usize = end;
    assert(body.take(start - from) =~= body);
    assert(last_part(body, verbatim) =~= last_part(body, verbatim) + path@.subrange(
        start as int,
        end as int,
    ));
    while start > from && !separates_parts(path[start - 1], verbatim)
        invariant
            from <= start <= end <= path@.len(),
            body == path@.subrange(from as int, end as int),
            last_part(body, verbatim) == last_part(body.take(start - from), verbatim)
                + path@.subrange(start as int, end as int),
        decreases start,
    {
        let ghost before = body.take(start - from);
        let ghost behind = path@.subrange(start as int, end as int);
        assert(before.drop_last() =~= body.take(start - 1 - from));
        assert(before.last() == path@[start - 1]);
        assert(last_part(before.drop_last(), verbatim).push(before.last()) + behind =~= last_part(
            before.drop_last(),
            verbatim,
        ) + path@.subrange(start - 1, end as int));
        start = start - 1;
    }
    assert(last_part(body, verbatim) =~= path@.subrange(start as int, end as int)) by {
        assert(last_part(body.take(start - from), verbatim) =~= Seq::empty());
    }
    start
}

/// The name of the file that a path ends in.
pub fn file_name_text(path: &str) -> (r: Option<String>)
    ensures
        text::opt_text(r) == file_name(path@),
{
    let chars = text::to_chars(path);
    let verbatim = starts_verbatim(&chars);
    let prefix: usize = find_prefix_end(&chars);
    let start: usize = find_body_start(&chars, prefix);
    let mut end: usize = chars.len();
    let ghost body = chars@.skip(start as int);
    assert(chars@.subrange(start as int, end as int) =~= body);
    loop
        invariant
            chars@ == path@,
            start == body_start(path@),
            start <= end <= chars@.len(),
            verbatim == is_verbatim(path@),
            body == path@.skip(start as int),
            last_name(body, verbatim) == last_name(
                chars@.subrange(start as int, end as int),
                verbatim,
            ),
        decreases end,
    {
        let ghost rest = chars@.subrange(start as int, end as int);
        let from: usize = find_last_part(&chars, start, end, verbatim);
        let ghost part = chars@.subrange(from as int, end as int);
        let is_dot = end - from == 1 && chars[from] == '.';
        assert(is_dot == (part == seq!['.'])) by {
            if is_dot {
                assert(part =~= seq!['.']);
            } else if part == seq!['.'] {
                assert(part[0] == '.');
            }
        }
        if from == end || (is_dot && !verbatim) {
            if from == start {
                return None;
            }
            assert(rest.take(rest.len() - part.len() - 1) =~= chars@.subrange(
                start as int,
                from - 1,
            ));
            end = from - 1;
        } else {
            let is_parent = end - from == 2 && chars[from] == '.' && chars[from + 1] == '.';
            assert(is_parent == (part == seq!['.', '.'])) by {
                if is_parent {
                    assert(part =~= seq!['.', '.']);
                } else if part == seq!['.', '.'] {
                    assert(part[0] == '.' && part[1] == '.');
                }
            }
            if is_dot || is_parent {
                return None;
            }
            return Some(text::from_char_range(&chars, from, end));
        }
    }
}

/// Writes the parts of a verbatim path behind a text, each with a backslash before it.
fn push_parts(out: &mut String, path: &Vec<char>, from: usize)
    requires
        from <= path@.len(),
    ensures
        final(out)@ == old(out)@ + with_backslashes(path@.skip(from as int)),
{
    let ghost body = path@.skip(from as int);
    let ghost before = out@;
    let mut i: usize = from;
    assert(body.take(0) =~= Seq::empty());
    assert(before + Seq::<char>::empty() =~= before);
    while i < path.len()
        invariant
            from <= i <= path@.len(),
            body == path@.skip(from as int),
            out@ == before + with_backslashes(body.take(i - from)),
        decreases path@.len() - i,
    {
        let ghost done = body.take(i + 1 - from);
        assert(done.drop_last() =~= body.take(i - from));
        assert(done.last() == path@[i as int]);
        let ghost written = with_backslashes(done.drop_last());
        if path[i] != '\\' {
            if i == from || path[i - 1] == '\\' {
                out.push('\\');
                assert(before + written.push('\\') =~= (before + written).push('\\'));
            }
            let c: char = path[i];
            out.push(c);
        }
        assert(out@ =~= before + with_backslashes(done));
        i = i + 1;
    }
    assert(body.take(i - from) =~= body);
}

/// Appends a path that is made of names.
pub fn join_windows_path(base: &str, name: &str) -> (r: String)
    ensures
        r@ == windows_join(base@, name@),
{
    let chars = text::to_chars(base);
    if starts_verbatim(&chars) && !text::is_empty(name) {
        let prefix: usize = find_prefix_end(&chars);
        let start: usize = find_body_start(&chars, prefix);
        let mut out = text::from_char_range(&chars, 0, prefix);
        push_parts(&mut out, &chars, start);
        out.push('\\');
        let r = out.concat(name);
        assert(r@ =~= windows_join(base@, name@));
        return r;
    }
    let mut out = base.to_owned();
    if chars.len() > 0 && !separates_parts(chars[chars.len() - 1], false) && !(chars.len() == 2
        && names_drive(&chars, 0)) {
        out.push('\\');
        assert(out@ =~= base@ + seq!['\\']);
    }
    out.concat(name)
}

/// A part of a path reaches from its start to the next separator, or to the end of the path.
pub proof fn law_part_reaches_to_the_next_separator(path: Seq<char>, from: int, verbatim: bool)
    requires
        0 <= from <= path.len(),
    ensures
        ({
            let end = part_end(path, from, verbatim);
            &&& from <= end <= path.len()
            &&& forall|i: int| from <= i < end ==> !separates(#[trigger] path[i], verbatim)
            &&& end < path.len() ==> separates(path[end], verbatim)
        }),
    decreases path.len() - from,
{
    if from < path.len() && !separates(path[from], verbatim) {
        law_part_reaches_to_the_next_separator(path, from + 1, verbatim);
    }
}

proof fn lemma_part_end_is(path: Seq<char>, from: int, end: int, verbatim: bool)
    requires
        0 <= from <= end <= path.len(),
        forall|i: int| from <= i < end ==> !separates(#[trigger] path[i], verbatim),
        end < path.len() ==> separates(path[end], verbatim),
    ensures
        part_end(path, from, verbatim) == end,
    decreases end - from,
{
    if from < end {
        assert(!separates(path[from], verbatim));
        lemma_part_end_is(path, from + 1, end, verbatim);
    }
}

/// Both slashes separate the parts of a path, and of a verbatim path only the backslash does.
pub proof fn law_slashes_separate(c: char)
    ensures
        separates(c, false) <==> c == '\\' || c == '/',
        separates(c, true) <==> c == '\\',
{
}

/// A drive is a letter and a colon, and is the prefix of the path that starts with it. A path that starts
/// neither with a drive nor with two separators has no prefix.
pub proof fn law_drive_is_a_prefix(path: Seq<char>)
    ensures
        is_drive_at(path, 0) <==> path.len() >= 2 && path[1] == ':' && ('a' <= path[0] <= 'z' || 'A'
            <= path[0] <= 'Z'),
        is_drive_at(path, 0) ==> prefix_end(path) == 2,
        !is_drive_at(path, 0) && (path.len() < 2 || !is_separator(path[0]) || !is_separator(
            path[1],
        )) ==> prefix_end(path) == 0,
{
}

/// A server and its share behind two separators are the prefix of a path.
pub proof fn law_share_is_a_prefix(path: Seq<char>, server_end: int, share_stop: int)
    requires
        2 < server_end,
        server_end + 1 < share_stop <= path.len(),
        is_separator(path[0]) && is_separator(path[1]) && is_separator(path[server_end]),
        forall|i: int| 2 <= i < server_end ==> !is_separator(#[trigger] path[i]),
        forall|i: int| server_end < i < share_stop ==> !is_separator(#[trigger] path[i]),
        share_stop < path.len() ==> is_separator(path[share_stop]),
        server_end == 3 ==> path[2] != '?' && path[2] != '.',
    ensures
        prefix_end(path) == share_stop,
{
    assert forall|i: int| 2 <= i < server_end implies !separates(#[trigger] path[i], false) by {
        assert(!is_separator(path[i]));
    }
    assert forall|i: int| server_end + 1 <= i < share_stop implies !separates(
        #[trigger] path[i],
        false,
    ) by {
        assert(!is_separator(path[i]));
    }
    lemma_part_end_is(path, 2, server_end, false);
    lemma_part_end_is(path, server_end + 1, share_stop, false);
    if server_end > 3 {
        assert(!is_separator(path[3]));
    }
}

/// Behind a verbatim start a drive is the prefix, and so are a server and its share behind `UNC`.
pub proof fn law_verbatim_drive_or_share_is_a_prefix(
    path: Seq<char>,
    server_end: int,
    share_stop: int,
)
    requires
        is_verbatim(path),
    ensures
        is_drive_at(path, 4) && (path.len() == 6 || is_separator(path[6])) ==> prefix_end(path)
            == 6,
        path.len() >= 8 && path[4] == 'U' && path[5] == 'N' && path[6] == 'C' && path[7] == '\\'
            && 8 <= server_end && server_end + 1 < share_stop <= path.len() && path[server_end]
            == '\\' && (forall|i: int| 8 <= i < server_end ==> #[trigger] path[i] != '\\') && (
        forall|i: int| server_end < i < share_stop ==> #[trigger] path[i] != '\\') && (share_stop
            < path.len() ==> path[share_stop] == '\\') ==> prefix_end(path) == share_stop,
{
    if path.len() >= 8 && path[4] == 'U' && path[5] == 'N' && path[6] == 'C' && path[7] == '\\' && 8
        <= server_end && server_end + 1 < share_stop <= path.len() && path[server_end] == '\\' && (
    forall|i: int| 8 <= i < server_end ==> #[trigger] path[i] != '\\') && (forall|i: int|
        server_end < i < share_stop ==> #[trigger] path[i] != '\\') && (share_stop < path.len()
        ==> path[share_stop] == '\\') {
        lemma_part_end_is(path, 8, server_end, true);
        lemma_part_end_is(path, server_end + 1, share_stop, true);
    }
}

/// A device behind two separators, a dot and a separator is the prefix of a path.
pub proof fn law_device_is_a_prefix(path: Seq<char>, end: int)
    requires
        4 <= end <= path.len(),
        is_separator(path[0]) && is_separator(path[1]) && path[2] == '.' && is_separator(path[3]),
        forall|i: int| 4 <= i < end ==> !is_separator(#[trigger] path[i]),
        end < path.len() ==> is_separator(path[end]),
    ensures
        prefix_end(path) == end,
{
    assert forall|i: int| 4 <= i < end implies !separates(#[trigger] path[i], false) by {
        assert(!is_separator(path[i]));
    }
    lemma_part_end_is(path, 4, end, false);
}

proof fn lemma_last_part_is(body: Seq<char>, start: int, verbatim: bool)
    requires
        0 <= start <= body.len(),
        forall|i: int| start <= i < body.len() ==> !separates(#[trigger] body[i], verbatim),
        start > 0 ==> separates(body[start - 1], verbatim),
    ensures
        last_part(body, verbatim) == body.skip(start),
    decreases body.len(),
{
    if start < body.len() {
        assert(!separates(body[body.len() - 1], verbatim));
        let front = body.drop_last();
        assert forall|i: int| start <= i < front.len() implies !separates(
            #[trigger] front[i],
            verbatim,
        ) by {
            assert(front[i] == body[i]);
        }
        if start > 0 {
            assert(front[start - 1] == body[start - 1]);
        }
        lemma_last_part_is(front, start, verbatim);
        assert(front.skip(start).push(body.last()) =~= body.skip(start));
    } else {
        assert(body.skip(start) =~= Seq::empty());
    }
}

/// A path that ends in a name, behind a separator or where its parts start, has that name as its file name.
pub proof fn law_file_name_is_the_last_name(path: Seq<char>, start: int)
    requires
        body_start(path) <= start < path.len(),
        0 <= body_start(path),
        start == body_start(path) || separates(path[start - 1], is_verbatim(path)),
        forall|i: int|
            start <= i < path.len() ==> !separates(#[trigger] path[i], is_verbatim(path)),
        path.skip(start) != seq!['.'],
        path.skip(start) != seq!['.', '.'],
    ensures
        file_name(path) == Some(path.skip(start)),
{
    let first = body_start(path);
    let body = path.skip(first);
    let verbatim = is_verbatim(path);
    assert forall|i: int| start - first <= i < body.len() implies !separates(
        #[trigger] body[i],
        verbatim,
    ) by {
        assert(body[i] == path[i + first]);
    }
    if start > first {
        assert(body[start - first - 1] == path[start - 1]);
    }
    lemma_last_part_is(body, start - first, verbatim);
    assert(body.skip(start - first) =~= path.skip(start));
}

/// Separators behind a path, and parts that are a dot, are passed over: what stands before them is its last
/// name. A part that is a dot counts in a verbatim path.
pub proof fn law_separators_at_the_end_are_passed_over(body: Seq<char>, c: char, verbatim: bool)
    requires
        separates(c, verbatim),
    ensures
        last_name(body.push(c), verbatim) == last_name(body, verbatim),
        !verbatim ==> last_name(body.push(c).push('.'), verbatim) == last_name(body, verbatim),
        last_name(Seq::empty(), verbatim).len() == 0,
{
    let longer = body.push(c);
    assert(last_part(longer, verbatim) =~= Seq::empty());
    assert(longer.take(longer.len() - 1) =~= body);
    if !verbatim {
        let dotted = longer.push('.');
        assert(dotted.drop_last() =~= longer);
        assert(last_part(dotted, verbatim) =~= seq!['.']);
        assert(dotted.take(dotted.len() - 2) =~= body);
    }
}

/// What is joined stands behind the path and one backslash. Behind a separator, a bare drive and an empty
/// path no backslash is put.
pub proof fn law_joined_path_ends_in_the_name(base: Seq<char>, name: Seq<char>)
    requires
        !is_verbatim(base),
    ensures
        base.len() > 0 && base.last() != '\\' && base.last() != '/' && !(base.len() == 2
            && is_drive_at(base, 0)) ==> windows_join(base, name) == base + seq!['\\'] + name,
        base.len() == 0 || base.last() == '\\' || base.last() == '/' || (base.len() == 2
            && is_drive_at(base, 0)) ==> windows_join(base, name) == base + name,
{
}

/// A verbatim path is written anew with its prefix, its parts and the name, each behind one backslash.
pub proof fn law_verbatim_path_is_written_anew(
    base: Seq<char>,
    name: Seq<char>,
    body: Seq<char>,
    part: Seq<char>,
)
    requires
        is_verbatim(base) && name.len() > 0,
        part.len() > 0,
        forall|i: int| 0 <= i < part.len() ==> #[trigger] part[i] != '\\',
    ensures
        windows_join(base, name) == base.take(prefix_end(base)) + with_backslashes(
            base.skip(body_start(base)),
        ) + seq!['\\'] + name,
        with_backslashes(Seq::empty()).len() == 0,
        with_backslashes(body.push('\\')) == with_backslashes(body),
        with_backslashes(part) == seq!['\\'] + part,
        with_backslashes(body.push('\\') + part) == with_backslashes(body) + seq!['\\'] + part,
{
    assert(body.push('\\').drop_last() =~= body);
    lemma_part_with_backslash(Seq::empty(), part);
    assert(Seq::<char>::empty() + part =~= part);
    assert(with_backslashes(Seq::empty()) + seq!['\\'] + part =~= seq!['\\'] + part);
    lemma_part_with_backslash(body.push('\\'), part);
}

proof fn lemma_part_with_backslash(body: Seq<char>, part: Seq<char>)
    requires
        body.len() == 0 || body.last() == '\\',
        part.len() > 0,
        forall|i: int| 0 <= i < part.len() ==> #[trigger] part[i] != '\\',
    ensures
        with_backslashes(body + part) == with_backslashes(body) + seq!['\\'] + part,
    decreases part.len(),
{
    let whole = body + part;
    let front = part.drop_last();
    assert(whole.last() == part[part.len() - 1]);
    assert(whole.drop_last() =~= body + front);
    if front.len() > 0 {
        assert forall|i: int| 0 <= i < front.len() implies #[trigger] front[i] != '\\' by {
            assert(front[i] == part[i]);
        }
        lemma_part_with_backslash(body, front);
        assert(whole[whole.len() - 2] == part[part.len() - 2]);
        assert(with_backslashes(whole) =~= with_backslashes(body) + seq!['\\'] + part);
    } else {
        assert(body + front =~= body);
        assert(with_backslashes(whole) =~= with_backslashes(body) + seq!['\\'] + part);
    }
}

/// A path that ends in the directory above has no file name, and a verbatim one that ends in a dot has none
/// either.
pub proof fn law_directories_are_no_files(path: Seq<char>, start: int)
    requires
        body_start(path) <= start < path.len(),
        0 <= body_start(path),
        start == body_start(path) || separates(path[start - 1], is_verbatim(path)),
        path.skip(start) == seq!['.', '.'] || (is_verbatim(path) && path.skip(start) == seq!['.']),
    ensures
        file_name(path) is None,
{
    let first = body_start(path);
    let body = path.skip(first);
    let verbatim = is_verbatim(path);
    let name = path.skip(start);
    assert forall|i: int| start - first <= i < body.len() implies !separates(
        #[trigger] body[i],
        verbatim,
    ) by {
        let k = i - (start - first);
        assert(body[i] == name[k]);
        assert(0 <= k < name.len());
        assert(name == seq!['.', '.'] ==> name.len() == 2 && (k == 0 || k == 1) && name[k] == '.');
        assert(name == seq!['.'] ==> name.len() == 1 && k == 0 && name[k] == '.');
    }
    if start > first {
        assert(body[start - first - 1] == path[start - 1]);
    }
    lemma_last_part_is(body, start - first, verbatim);
    assert(body.skip(start - first) =~= name);
}

/// A verbatim start without a server behind `UNC` and its backslash is all prefix.
pub proof fn law_verbatim_start_without_a_server_is_a_prefix(path: Seq<char>)
    requires
        is_verbatim(path),
        path.len() == 8,
        path[4] == 'U' && path[5] == 'N' && path[6] == 'C' && path[7] == '\\',
    ensures
        prefix_end(path) == 8,
{
}

} // verus!
