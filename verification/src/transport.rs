//! Frames on a local connection and the places where the supervisor and its workers listen.
use crate::ids::ProcessId;
use crate::{ids, text, windows_path, MAX_FRAME_SIZE};
use vstd::prelude::*;

verus! {

/// The directory of the supervisor below the home directory.
pub const SUPERVISOR_DIR_NAME: &'static str = "supervisor";

/// The socket of the supervisor in its directory.
pub const SOCKET_FILE_NAME: &'static str = "supervisor.sock";

/// The file with the token that admits requests, in the directory of the supervisor.
pub const TOKEN_FILE_NAME: &'static str = "auth.token";

/// A number as four bytes, the least significant first.
pub open spec fn length_bytes(n: nat) -> Seq<u8> {
    seq![
        (n % 256) as u8,
        (n / 256 % 256) as u8,
        (n / 65536 % 256) as u8,
        (n / 16777216 % 256) as u8,
    ]
}

/// The number that four bytes denote, the least significant first.
pub open spec fn length_of(bytes: Seq<u8>) -> nat {
    (bytes[0] + bytes[1] * 256 + bytes[2] * 65536 + bytes[3] * 16777216) as nat
}

/// A frame: the length of its payload and the payload.
pub open spec fn frame(payload: Seq<u8>) -> Seq<u8> {
    length_bytes(payload.len()) + payload
}

/// Why a frame is refused: it is larger than a frame may be.
pub open spec fn oversize_message() -> Seq<char> {
    "supervisor frame exceeds "@ + text::decimal(MAX_FRAME_SIZE as nat) + " bytes"@
}

fn oversize() -> (r: String)
    ensures
        r@ == oversize_message(),
{
    "supervisor frame exceeds ".to_owned().concat(
        text::decimal_usize(MAX_FRAME_SIZE).as_str(),
    ).concat(" bytes")
}

/// Puts a payload into a frame.
pub fn encode_frame(payload: &Vec<u8>) -> (r: Result<Vec<u8>, String>)
    ensures
        if payload@.len() > MAX_FRAME_SIZE {
            r is Err && r->Err_0@ == oversize_message()
        } else {
            r is Ok && r->Ok_0@ == frame(payload@)
        },
{
    if payload.len() > MAX_FRAME_SIZE {
        return Err(oversize());
    }
    let length: usize = payload.len();
    let mut out: Vec<u8> = Vec::new();
    out.push((length % 256) as u8);
    out.push((length / 256 % 256) as u8);
    out.push((length / 65536 % 256) as u8);
    out.push((length / 16777216 % 256) as u8);
    assert(out@ =~= length_bytes(payload@.len()));
    let mut i: usize = 0;
    while i < payload.len()
        invariant
            i <= payload@.len(),
            out@ == length_bytes(payload@.len()) + payload@.take(i as int),
        decreases payload@.len() - i,
    {
        out.push(payload[i]);
        assert(out@ =~= length_bytes(payload@.len()) + payload@.take(i + 1));
        i = i + 1;
    }
    assert(payload@.take(payload@.len() as int) =~= payload@);
    Ok(out)
}

/// Reads the length of a payload from the four bytes in front of it.
pub fn decode_length(header: &[u8; 4]) -> (r: Result<usize, String>)
    ensures
        if length_of(header@) > MAX_FRAME_SIZE {
            r is Err && r->Err_0@ == oversize_message()
        } else {
            r is Ok && r->Ok_0 == length_of(header@)
        },
{
    let length: u64 = header[0] as u64 + header[1] as u64 * 256 + header[2] as u64 * 65536
        + header[3] as u64 * 16777216;
    if length > MAX_FRAME_SIZE as u64 {
        Err(oversize())
    } else {
        Ok(length as usize)
    }
}

/// What the reader of a frame finds: the length that was written, and the payload behind it.
pub proof fn law_frame_reads_back(payload: Seq<u8>)
    requires
        payload.len() <= MAX_FRAME_SIZE,
    ensures
        length_of(frame(payload).take(4)) == payload.len(),
        frame(payload).skip(4) == payload,
{
    let n = payload.len();
    let header = frame(payload).take(4);
    assert(header =~= length_bytes(n));
    assert(frame(payload).skip(4) =~= payload);
    assert(n % 256 + (n / 256 % 256) * 256 + (n / 65536 % 256) * 65536 + (n / 16777216 % 256)
        * 16777216 == n);
}

/// A path with another one behind it. One slash separates them.
pub open spec fn path_join(base: Seq<char>, name: Seq<char>) -> Seq<char> {
    if base.len() == 0 || base.last() == '/' {
        base + name
    } else {
        base + seq!['/'] + name
    }
}

/// Appends a relative path.
pub fn join_path(base: &str, name: &str) -> (r: String)
    ensures
        r@ == path_join(base@, name@),
{
    let chars = text::to_chars(base);
    let mut out = base.to_owned();
    if chars.len() > 0 && chars[chars.len() - 1] != '/' {
        out.push('/');
        assert(out@ =~= base@ + seq!['/']);
    }
    out.concat(name)
}

/// Where the supervisor listens.
pub open spec fn supervisor_socket(codex_home: Seq<char>) -> Seq<char> {
    path_join(path_join(codex_home, SUPERVISOR_DIR_NAME@), SOCKET_FILE_NAME@)
}

/// Where a worker listens.
pub open spec fn worker_socket(codex_home: Seq<char>, id: ProcessId) -> Seq<char> {
    path_join(
        path_join(codex_home, SUPERVISOR_DIR_NAME@),
        "worker-"@ + ids::id_text(id) + ".sock"@,
    )
}

/// Where the token of the supervisor is kept.
pub open spec fn token_path(codex_home: Seq<char>) -> Seq<char> {
    path_join(path_join(codex_home, SUPERVISOR_DIR_NAME@), TOKEN_FILE_NAME@)
}

/// Where the supervisor of a home directory listens.
pub fn endpoint_for_codex_home(codex_home: &str) -> (r: String)
    ensures
        r@ == supervisor_socket(codex_home@),
{
    join_path(join_path(codex_home, SUPERVISOR_DIR_NAME).as_str(), SOCKET_FILE_NAME)
}

/// Where a worker of a home directory listens.
pub fn worker_endpoint_for_codex_home(codex_home: &str, id: ProcessId) -> (r: String)
    ensures
        r@ == worker_socket(codex_home@, id),
{
    let name = "worker-".to_owned().concat(ids::id_to_text(id).as_str()).concat(".sock");
    join_path(join_path(codex_home, SUPERVISOR_DIR_NAME).as_str(), name.as_str())
}

/// Where the token of a home directory is kept.
pub fn token_file_for_codex_home(codex_home: &str) -> (r: String)
    ensures
        r@ == token_path(codex_home@),
{
    join_path(join_path(codex_home, SUPERVISOR_DIR_NAME).as_str(), TOKEN_FILE_NAME)
}

/// Where the token of a home directory is kept on Windows.
pub open spec fn windows_token_path(codex_home: Seq<char>) -> Seq<char> {
    windows_path::windows_join(
        windows_path::windows_join(codex_home, SUPERVISOR_DIR_NAME@),
        TOKEN_FILE_NAME@,
    )
}

/// Where the token of a home directory is kept on Windows.
pub fn windows_token_file_for_codex_home(codex_home: &str) -> (r: String)
    ensures
        r@ == windows_token_path(codex_home@),
{
    windows_path::join_windows_path(
        windows_path::join_windows_path(codex_home, SUPERVISOR_DIR_NAME).as_str(),
        TOKEN_FILE_NAME,
    )
}

/// Two workers of one home directory never listen at the same place.
pub proof fn law_workers_listen_apart(codex_home: Seq<char>, a: ProcessId, b: ProcessId)
    requires
        worker_socket(codex_home, a) == worker_socket(codex_home, b),
    ensures
        a == b,
{
    let base = path_join(codex_home, SUPERVISOR_DIR_NAME@);
    let x = worker_socket(codex_home, a);
    let y = worker_socket(codex_home, b);
    ids::law_id_text_round_trip(a);
    ids::law_id_text_round_trip(b);
    reveal_strlit("supervisor");
    let start = (base.len() + 1 + "worker-"@.len()) as int;
    assert(base.len() > 0 && base.last() != '/') by {
        assert(base.last() == "supervisor"@.last());
    }
    assert(x.subrange(start, start + 36) =~= ids::id_text(a));
    assert(y.subrange(start, start + 36) =~= ids::id_text(b));
    ids::law_id_text_is_injective(a, b);
}

/// Where the supervisor listens on Windows: a pipe that is named by a hash of the home directory.
pub fn windows_pipe_name(home_hash: u64) -> (r: String)
    ensures
        r@ == "\\\\.\\pipe\\codex-supervisor-"@ + ids::hex_digits(home_hash as nat, 16),
{
    "\\\\.\\pipe\\codex-supervisor-".to_owned().concat(ids::hex_text(home_hash, 16).as_str())
}

/// Where a worker listens on Windows.
pub open spec fn worker_pipe(home_hash: u64, id: ProcessId) -> Seq<char> {
    "\\\\.\\pipe\\codex-supervisor-worker-"@ + ids::hex_digits(home_hash as nat, 16) + "-"@
        + ids::id_text(id)
}

/// Where a worker listens on Windows.
pub fn windows_worker_pipe_name(home_hash: u64, id: ProcessId) -> (r: String)
    ensures
        r@ == worker_pipe(home_hash, id),
{
    "\\\\.\\pipe\\codex-supervisor-worker-".to_owned().concat(
        ids::hex_text(home_hash, 16).as_str(),
    ).concat("-").concat(ids::id_to_text(id).as_str())
}

/// Two workers of one home directory never listen at the same pipe.
pub proof fn law_worker_pipes_are_apart(home_hash: u64, a: ProcessId, b: ProcessId)
    requires
        worker_pipe(home_hash, a) == worker_pipe(home_hash, b),
    ensures
        a == b,
{
    let x = worker_pipe(home_hash, a);
    let y = worker_pipe(home_hash, b);
    let start = ("\\\\.\\pipe\\codex-supervisor-worker-"@ + ids::hex_digits(home_hash as nat, 16)
        + "-"@).len() as int;
    assert(x.skip(start) =~= ids::id_text(a));
    assert(y.skip(start) =~= ids::id_text(b));
    ids::law_id_text_is_injective(a, b);
}

/// The token in the text of a token file: the text without white space around it, if there is any.
pub open spec fn token_in(contents: Seq<char>) -> Option<Seq<char>> {
    if text::trimmed(contents).len() == 0 {
        None
    } else {
        Some(text::trimmed(contents))
    }
}

/// Reads the token from the text of a token file.
pub fn stored_token(contents: &str) -> (r: Option<String>)
    ensures
        text::opt_text(r) == token_in(contents@),
{
    let token = text::trim(contents);
    if text::is_empty(token) {
        None
    } else {
        Some(token.to_owned())
    }
}

/// Takes the token that another supervisor has stored meanwhile. It is never replaced.
pub fn token_of_another(token_path: &str, contents: &str) -> (r: Result<String, String>)
    ensures
        match token_in(contents@) {
            Some(token) => r is Ok && r->Ok_0@ == token,
            None => r is Err && r->Err_0@ == "codex supervisor token "@ + token_path@
                + " is empty"@,
        },
{
    match stored_token(contents) {
        Some(token) => Ok(token),
        None => Err(
            "codex supervisor token ".to_owned().concat(token_path).concat(" is empty"),
        ),
    }
}

/// A frame is its length in four bytes, the lowest first, and the payload behind it.
pub proof fn law_frame_starts_with_its_length(payload: Seq<u8>)
    requires
        payload.len() < 4294967296,
    ensures
        frame(payload).len() == payload.len() + 4,
        frame(payload)[0] as int + frame(payload)[1] as int * 256 + frame(payload)[2] as int * 65536
            + frame(payload)[3] as int * 16777216 == payload.len(),
        forall|i: int|
            0 <= i < payload.len() ==> (#[trigger] payload[i]) == frame(payload)[i + 4],
{
    let n = payload.len();
    assert(n % 256 + (n / 256 % 256) * 256 + (n / 65536 % 256) * 65536 + (n / 16777216 % 256)
        * 16777216 == n);
}

/// What belongs to a home directory is kept in its directory `supervisor`, one slash between the parts:
/// the socket of the supervisor, its token, and a socket of each worker that is named by its identity.
pub proof fn law_supervisor_files_stand_in_the_home_directory(
    codex_home: Seq<char>,
    id: ProcessId,
)
    requires
        codex_home.len() > 0,
        codex_home.last() != '/',
    ensures
        supervisor_socket(codex_home) == codex_home + "/"@ + "supervisor"@ + "/"@
            + SOCKET_FILE_NAME@,
        token_path(codex_home) == codex_home + "/"@ + "supervisor"@ + "/"@ + "auth.token"@,
        worker_socket(codex_home, id) == codex_home + "/"@ + "supervisor"@ + "/"@ + ("worker-"@
            + ids::id_text(id) + ".sock"@),
        path_join(codex_home + "/"@, "x"@) == codex_home + "/"@ + "x"@,
        path_join(Seq::empty(), "x"@) == "x"@,
{
    reveal_strlit("/");
    reveal_strlit("supervisor");
    let base = path_join(codex_home, "supervisor"@);
    assert("/"@ =~= seq!['/']);
    assert(base =~= codex_home + "/"@ + "supervisor"@);
    assert(base.last() == "supervisor"@.last());
    assert(Seq::<char>::empty() + "x"@ =~= "x"@);
    assert((codex_home + "/"@).last() == '/');
}

/// The token is the text of its file without white space around it. A file without one has no token.
pub proof fn law_token_is_what_its_file_holds(contents: Seq<char>)
    ensures
        token_in(contents) is None <==> forall|i: int|
            0 <= i < contents.len() ==> text::white_space(#[trigger] contents[i]),
        token_in(contents) matches Some(token) ==> token == text::trimmed(contents) && token.len()
            > 0 && !text::white_space(token[0]) && !text::white_space(token.last()),
{
    text::law_trimming_takes_white_space_alone(contents);
}

/// A frame that is too large is told with the mebibyte that a frame may have.
pub proof fn law_large_frame_is_told_with_the_limit()
    ensures
        oversize_message() == "supervisor frame exceeds "@ + text::decimal(1048576) + " bytes"@,
{
}

/// On Windows too the token stands in the directory of the supervisor below the home directory.
pub proof fn law_windows_token_stands_in_the_home_directory(codex_home: Seq<char>)
    requires
        codex_home.len() > 0,
        !windows_path::is_verbatim(codex_home),
        !windows_path::is_separator(codex_home.last()),
        !(codex_home.len() == 2 && windows_path::is_drive_at(codex_home, 0)),
        codex_home != seq!['\\', '\\', '?'],
    ensures
        windows_token_path(codex_home) == codex_home + seq!['\\'] + "supervisor"@ + seq!['\\']
            + "auth.token"@,
{
    reveal_strlit("supervisor");
    let directory = codex_home + seq!['\\'] + "supervisor"@;
    assert(directory.last() == 'r');
    assert(directory.len() > 4);
    if windows_path::is_verbatim(directory) {
        assert(codex_home.len() < 4);
        assert(directory[codex_home.len() as int] == '\\');
        assert(directory[codex_home.len() as int + 1] == 's');
        if codex_home.len() == 1 {
            assert(directory[2] == 's');
        } else if codex_home.len() == 2 {
            assert(directory[2] == '\\');
        } else {
            assert(directory[2] == codex_home[2]);
            assert(codex_home.last() == '?');
            assert(directory[0] == codex_home[0] && directory[1] == codex_home[1]);
            assert(codex_home =~= seq!['\\', '\\', '?']);
        }
    }
}

} // verus!
