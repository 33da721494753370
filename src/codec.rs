use vstd::prelude::*;
use vstd::slice::slice_to_vec;
use vstd::slice::slice_subrange;
use vstd::string::*;

use crate::text::{decode_lossy, lossy_utf8, trim_of, trimmed};

verus! {

/// Separates the fields of a request and the lines of a response.
pub const CRLF: &'static str = "\r\n";

/// First field of a request that creates a room.
pub const CREATE_TAG: &'static str = "create";

/// First field of a request that joins a room.
pub const JOIN_TAG: &'static str = "join";

/// The whole request for the room directory.
pub const ROOM_LIST_REQUEST: &'static str = "room_list";

/// The whole reply to a join request for a room that does not exist.
pub const ROOM_NOT_FOUND: &'static str = "@#$failed";

/// The whole reply to a join request with a wrong password.
pub const WRONG_PASSWORD: &'static str = "@#$wrong";

/// The value of a directory line's third field, once trimmed, that marks a
/// room with a password.
pub const PASSWORD_SET: &'static str = "1";

/// Separates the fields of one line of the room directory.
pub const FIELD_SEP: &'static str = "$#$#";

/// True when `sep` occurs in `b` starting at index `j`.
pub open spec fn occurs_at(b: Seq<u8>, sep: Seq<u8>, j: int) -> bool {
    0 <= j && j + sep.len() <= b.len() && b.subrange(j, j + sep.len()) == sep
}

/// The pieces of `b` from `start` on, cut at each occurrence of `sep` found
/// by scanning left to right from `i`, as `str::split` cuts them.
pub open spec fn split_from(b: Seq<u8>, sep: Seq<u8>, start: int, i: int) -> Seq<Seq<u8>>
    decreases b.len() - i,
    when sep.len() > 0
{
    if i + sep.len() > b.len() {
        seq![b.subrange(start, b.len() as int)]
    } else if occurs_at(b, sep, i) {
        seq![b.subrange(start, i)] + split_from(b, sep, i + sep.len(), i + sep.len())
    } else {
        split_from(b, sep, start, i + 1)
    }
}

/// The pieces of `b` between the occurrences of `sep`; there is always at
/// least one, and the separators themselves are left out.
pub open spec fn split_on(b: Seq<u8>, sep: Seq<u8>) -> Seq<Seq<u8>> {
    split_from(b, sep, 0, 0)
}

/// The contents of each vector of `v`.
pub open spec fn byte_views(v: Seq<Vec<u8>>) -> Seq<Seq<u8>> {
    v.map_values(|x: Vec<u8>| x@)
}

/// Tests whether `sep` occurs in `b` at index `j`.
fn occurs_at_exec(b: &[u8], sep: &[u8], j: usize) -> (r: bool)
    ensures
        r == occurs_at(b@, sep@, j as int),
{
    if j > b.len() || sep.len() > b.len() - j {
        return false;
    }
    let mut k: usize = 0;
    while k < sep.len()
        invariant
            j + sep@.len() <= b@.len(),
            b@.len() <= usize::MAX,
            k <= sep@.len(),
            forall|m: int| 0 <= m < k ==> b@[j + m] == sep@[m],
        decreases sep@.len() - k,
    {
        if b[j + k] != sep[k] {
            assert(b@.subrange(j as int, j + sep@.len())[k as int] != sep@[k as int]);
            return false;
        }
        k = k + 1;
    }
    assert(b@.subrange(j as int, j + sep@.len()) =~= sep@);
    true
}

/// Tests two byte sequences for equality.
fn bytes_equal(a: &[u8], b: &[u8]) -> (r: bool)
    ensures
        r == (a@ == b@),
{
    if a.len() != b.len() {
        return false;
    }
    let r = occurs_at_exec(a, b, 0);
    assert(a@.subrange(0, a@.len() as int) =~= a@);
    r
}

/// Cuts `b` at each occurrence of `sep`.
pub fn split_bytes(b: &[u8], sep: &[u8]) -> (r: Vec<Vec<u8>>)
    requires
        sep@.len() > 0,
    ensures
        byte_views(r@) == split_on(b@, sep@),
{
    let n = b.len();
    let mut pieces: Vec<Vec<u8>> = Vec::new();
    let mut start: usize = 0;
    let mut i: usize = 0;
    loop
        invariant
            n == b@.len(),
            sep@.len() > 0,
            start <= i <= n,
            split_on(b@, sep@) == byte_views(pieces@) + split_from(b@, sep@, start as int, i as int),
        decreases n - i,
    {
        if i > n || sep.len() > n - i {
            let last = slice_to_vec(slice_subrange(b, start, n));
            let ghost before = byte_views(pieces@);
            pieces.push(last);
            assert(byte_views(pieces@) =~= before + seq![b@.subrange(start as int, n as int)]);
            return pieces;
        }
        if occurs_at_exec(b, sep, i) {
            let piece = slice_to_vec(slice_subrange(b, start, i));
            let ghost before = byte_views(pieces@);
            pieces.push(piece);
            assert(byte_views(pieces@) =~= before + seq![b@.subrange(start as int, i as int)]);
            i = i + sep.len();
            start = i;
        } else {
            i = i + 1;
        }
    }
}

proof fn lemma_separator_bytes()
    ensures
        CRLF.spec_bytes() == seq![13u8, 10u8],
        FIELD_SEP.spec_bytes() == seq![36u8, 35u8, 36u8, 35u8],
{
    reveal_strlit("\r\n");
    reveal_strlit("$#$#");
    assert(is_ascii(CRLF));
    assert(is_ascii(FIELD_SEP));
    assert(CRLF.spec_bytes() =~= seq![13u8, 10u8]);
    assert(FIELD_SEP.spec_bytes() =~= seq![36u8, 35u8, 36u8, 35u8]);
}

proof fn lemma_refusal_bytes()
    ensures
        ROOM_NOT_FOUND.spec_bytes().len() == 9,
        WRONG_PASSWORD.spec_bytes().len() == 8,
{
    reveal_strlit("@#$failed");
    reveal_strlit("@#$wrong");
    assert(is_ascii(ROOM_NOT_FOUND));
    assert(is_ascii(WRONG_PASSWORD));
}

proof fn lemma_split_from_nonempty(b: Seq<u8>, sep: Seq<u8>, start: int, i: int)
    requires
        sep.len() > 0,
    ensures
        split_from(b, sep, start, i).len() >= 1,
    decreases b.len() - i,
{
    if i + sep.len() > b.len() {
    } else if occurs_at(b, sep, i) {
        lemma_split_from_nonempty(b, sep, i + sep.len(), i + sep.len());
    } else {
        lemma_split_from_nonempty(b, sep, start, i + 1);
    }
}

/// The text of an optional trailing field, with the separator before it.
pub open spec fn optional_field(f: Option<Seq<char>>) -> Seq<char> {
    match f {
        Some(v) => CRLF@ + v,
        None => Seq::empty(),
    }
}

/// The text of an optional string.
pub open spec fn opt_str(o: Option<&str>) -> Option<Seq<char>> {
    match o {
        Some(s) => Some(s@),
        None => None,
    }
}

/// `create`, the user name, then the room name and the password where they
/// are given, separated by CRLF.
pub open spec fn create_request(
    username: Seq<char>,
    room_name: Option<Seq<char>>,
    password: Option<Seq<char>>,
) -> Seq<char> {
    CREATE_TAG@ + CRLF@ + username + optional_field(room_name) + optional_field(password)
}

/// `join`, the user name, the room id, then the password where it is given,
/// separated by CRLF.
pub open spec fn join_request(
    username: Seq<char>,
    room_id: Seq<char>,
    password: Option<Seq<char>>,
) -> Seq<char> {
    JOIN_TAG@ + CRLF@ + username + CRLF@ + room_id + optional_field(password)
}

fn append_optional(r: &mut String, f: Option<&str>)
    ensures
        final(r)@ == old(r)@ + optional_field(opt_str(f)),
{
    if let Some(v) = f {
        r.append(CRLF);
        r.append(v);
    }
}

/// The request that creates a room.
pub fn encode_create_request(username: &str, room_name: Option<&str>, password: Option<&str>) -> (r:
    String)
    ensures
        r@ == create_request(username@, opt_str(room_name), opt_str(password)),
{
    let mut r = String::from_str(CREATE_TAG);
    r.append(CRLF);
    r.append(username);
    append_optional(&mut r, room_name);
    append_optional(&mut r, password);
    r
}

/// The request that joins the room `room_id`.
pub fn encode_join_request(username: &str, room_id: &str, password: Option<&str>) -> (r: String)
    ensures
        r@ == join_request(username@, room_id@, opt_str(password)),
{
    let mut r = String::from_str(JOIN_TAG);
    r.append(CRLF);
    r.append(username);
    r.append(CRLF);
    r.append(room_id);
    append_optional(&mut r, password);
    r
}

/// The request for the room directory.
pub fn encode_room_list_request() -> (r: String)
    ensures
        r@ == ROOM_LIST_REQUEST@,
{
    String::from_str(ROOM_LIST_REQUEST)
}

/// Each byte sequence decoded as text.
pub open spec fn lossy_all(v: Seq<Seq<u8>>) -> Seq<Seq<char>> {
    v.map_values(|b: Seq<u8>| lossy_utf8(b))
}

/// The text of each string of `v`.
pub open spec fn text_views(v: Seq<String>) -> Seq<Seq<char>> {
    v.map_values(|s: String| s@)
}

/// Why the server turned a join request down.
#[derive(Debug, Clone, Copy, PartialEq, Eq, Structural)]
pub enum JoinRejection {
    RoomNotFound,
    WrongPassword,
}

/// What the server answers to a join request that it accepts: the room id,
/// then the members already in the room.
#[derive(Debug)]
pub struct JoinAccepted {
    pub room_id: String,
    pub members: Vec<String>,
}

/// The lines of a response body.
pub open spec fn response_lines(body: Seq<u8>) -> Seq<Seq<u8>> {
    split_on(body, CRLF.spec_bytes())
}

/// Reads the reply to a join request. The two refusals are recognised only
/// when the body is exactly their text; any other body is an acceptance whose
/// first line is the room id and whose other lines are the members.
pub fn decode_join_response(body: &[u8]) -> (r: Result<JoinAccepted, JoinRejection>)
    ensures
        (r == Err::<JoinAccepted, JoinRejection>(JoinRejection::RoomNotFound)) <==> body@
            == ROOM_NOT_FOUND.spec_bytes(),
        (r == Err::<JoinAccepted, JoinRejection>(JoinRejection::WrongPassword)) <==> body@
            == WRONG_PASSWORD.spec_bytes(),
        r matches Ok(a) ==> {
            &&& a.room_id@ == lossy_utf8(response_lines(body@)[0])
            &&& text_views(a.members@) == lossy_all(response_lines(body@).drop_first())
        },
{
    proof {
        lemma_refusal_bytes();
    }
    if bytes_equal(body, ROOM_NOT_FOUND.as_bytes()) {
        return Err(JoinRejection::RoomNotFound);
    }
    if bytes_equal(body, WRONG_PASSWORD.as_bytes()) {
        return Err(JoinRejection::WrongPassword);
    }
    proof {
        lemma_separator_bytes();
        lemma_split_from_nonempty(body@, CRLF.spec_bytes(), 0, 0);
    }
    let lines = split_bytes(body, CRLF.as_bytes());
    assert(byte_views(lines@)[0] == lines@[0]@);
    let room_id = decode_lossy(lines[0].as_slice());
    let mut members: Vec<String> = Vec::new();
    let mut i: usize = 1;
    while i < lines.len()
        invariant
            1 <= i <= lines@.len(),
            byte_views(lines@) == response_lines(body@),
            text_views(members@) == lossy_all(response_lines(body@).subrange(1, i as int)),
        decreases lines@.len() - i,
    {
        let m = decode_lossy(lines[i].as_slice());
        let ghost prev = members@;
        members.push(m);
        proof {
            let all = response_lines(body@);
            assert(byte_views(lines@)[i as int] == lines@[i as int]@);
            assert(all.subrange(1, i + 1) =~= all.subrange(1, i as int).push(all[i as int]));
            assert(text_views(members@) =~= text_views(prev).push(m@));
            assert(lossy_all(all.subrange(1, i + 1)) =~= lossy_all(all.subrange(1, i as int)).push(
                lossy_utf8(all[i as int]),
            ));
        }
        i = i + 1;
    }
    assert(response_lines(body@).subrange(1, i as int) =~= response_lines(body@).drop_first());
    Ok(JoinAccepted { room_id, members })
}

/// One room of the directory: its id, its name, and whether it asks for a
/// password.
#[derive(Debug, Clone)]
pub struct RoomDescriptor {
    pub room_id: String,
    pub room_name: String,
    pub has_password: bool,
}

pub struct RoomDescriptorView {
    pub room_id: Seq<char>,
    pub room_name: Seq<char>,
    pub has_password: bool,
}

impl View for RoomDescriptor {
    type V = RoomDescriptorView;

    open spec fn view(&self) -> RoomDescriptorView {
        RoomDescriptorView {
            room_id: self.room_id@,
            room_name: self.room_name@,
            has_password: self.has_password,
        }
    }
}

/// Whether the third field of a directory line marks a room with a password.
pub open spec fn password_flag(field: Seq<u8>) -> bool {
    trim_of(lossy_utf8(field)) == PASSWORD_SET@
}

/// The fields of one directory line.
pub open spec fn line_fields(line: Seq<u8>) -> Seq<Seq<u8>> {
    split_on(line, FIELD_SEP.spec_bytes())
}

/// What one directory line contributes: one room where it has at least three
/// fields, nothing otherwise.
pub open spec fn line_entries(line: Seq<u8>) -> Seq<RoomDescriptorView> {
    let f = line_fields(line);
    if f.len() >= 3 {
        seq![
            RoomDescriptorView {
                room_id: lossy_utf8(f[0]),
                room_name: lossy_utf8(f[1]),
                has_password: password_flag(f[2]),
            },
        ]
    } else {
        Seq::empty()
    }
}

/// The rooms that a sequence of directory lines describes, in order.
pub open spec fn directory_entries(lines: Seq<Seq<u8>>) -> Seq<RoomDescriptorView>
    decreases lines.len(),
{
    if lines.len() == 0 {
        Seq::empty()
    } else {
        directory_entries(lines.drop_last()) + line_entries(lines.last())
    }
}

proof fn lemma_directory_concat(a: Seq<Seq<u8>>, b: Seq<Seq<u8>>)
    ensures
        directory_entries(a + b) == directory_entries(a) + directory_entries(b),
    decreases b.len(),
{
    if b.len() == 0 {
        assert(a + b =~= a);
        assert(directory_entries(a) + Seq::<RoomDescriptorView>::empty() =~= directory_entries(a));
    } else {
        lemma_directory_concat(a, b.drop_last());
        assert((a + b).drop_last() =~= a + b.drop_last());
        assert((a + b).last() == b.last());
        assert(directory_entries(a) + directory_entries(b.drop_last()) + line_entries(b.last())
            =~= directory_entries(a) + (directory_entries(b.drop_last()) + line_entries(b.last())));
    }
}

/// Each line of a directory contributes its own rooms in place: nothing where
/// it has fewer than three fields, and otherwise one room, which asks for a
/// password only where the trimmed third field is exactly `1`.
pub proof fn lemma_directory_line(before: Seq<Seq<u8>>, line: Seq<u8>, after: Seq<Seq<u8>>)
    ensures
        directory_entries(before + seq![line] + after) == directory_entries(before)
            + line_entries(line) + directory_entries(after),
        line_fields(line).len() < 3 ==> directory_entries(before + seq![line] + after)
            == directory_entries(before) + directory_entries(after),
        line_fields(line).len() >= 3 ==> line_entries(line).len() == 1,
        line_fields(line).len() >= 3 && trim_of(lossy_utf8(line_fields(line)[2])) != PASSWORD_SET@
            ==> !line_entries(line)[0].has_password,
{
    lemma_directory_concat(before + seq![line], after);
    lemma_directory_concat(before, seq![line]);
    let one = seq![line];
    assert(one.drop_last() =~= Seq::<Seq<u8>>::empty());
    assert(one.last() == line);
    assert(directory_entries(one.drop_last()) == Seq::<RoomDescriptorView>::empty());
    assert(directory_entries(one) == directory_entries(one.drop_last()) + line_entries(line));
    assert(directory_entries(one) =~= line_entries(line));
    if line_fields(line).len() < 3 {
        assert(directory_entries(before) + line_entries(line) =~= directory_entries(before));
    }
}

/// The rooms that a directory response body describes.
pub open spec fn room_directory(body: Seq<u8>) -> Seq<RoomDescriptorView> {
    directory_entries(response_lines(body))
}

/// The view of each room of `v`.
pub open spec fn room_views(v: Seq<RoomDescriptor>) -> Seq<RoomDescriptorView> {
    v.map_values(|d: RoomDescriptor| d@)
}

/// Reads one directory line: `Some` room where it has at least three fields.
fn parse_directory_line(line: &[u8]) -> (r: Option<RoomDescriptor>)
    ensures
        line_entries(line@) == match r {
            Some(d) => seq![d@],
            None => Seq::<RoomDescriptorView>::empty(),
        },
{
    proof {
        lemma_separator_bytes();
    }
    let fields = split_bytes(line, FIELD_SEP.as_bytes());
    if fields.len() < 3 {
        return None;
    }
    assert(byte_views(fields@)[0] == fields@[0]@);
    assert(byte_views(fields@)[1] == fields@[1]@);
    assert(byte_views(fields@)[2] == fields@[2]@);
    let room_id = decode_lossy(fields[0].as_slice());
    let room_name = decode_lossy(fields[1].as_slice());
    let flag_text = decode_lossy(fields[2].as_slice());
    let flag = trimmed(flag_text.as_str());
    let set = String::from_str(PASSWORD_SET);
    let has_password = flag == set;
    let d = RoomDescriptor { room_id, room_name, has_password };
    assert(line_entries(line@) =~= seq![d@]);
    Some(d)
}

/// Reads the room directory: one room for each line with at least three
/// fields, in the order of the lines; other lines are skipped.
pub fn parse_room_directory(body: &[u8]) -> (r: Vec<RoomDescriptor>)
    ensures
        room_views(r@) == room_directory(body@),
{
    proof {
        lemma_separator_bytes();
    }
    let lines = split_bytes(body, CRLF.as_bytes());
    let mut rooms: Vec<RoomDescriptor> = Vec::new();
    let mut i: usize = 0;
    while i < lines.len()
        invariant
            i <= lines@.len(),
            byte_views(lines@) == response_lines(body@),
            room_views(rooms@) == directory_entries(response_lines(body@).take(i as int)),
        decreases lines@.len() - i,
    {
        let entry = parse_directory_line(lines[i].as_slice());
        let ghost prev = rooms@;
        proof {
            let all = response_lines(body@);
            assert(byte_views(lines@)[i as int] == lines@[i as int]@);
            assert(all.take(i + 1).drop_last() =~= all.take(i as int));
        }
        if let Some(d) = entry {
            rooms.push(d);
            assert(room_views(rooms@) =~= room_views(prev) + seq![d@]);
        } else {
            assert(room_views(rooms@) =~= room_views(prev) + Seq::<RoomDescriptorView>::empty());
        }
        i = i + 1;
    }
    assert(response_lines(body@).take(i as int) =~= response_lines(body@));
    rooms
}

} // verus!
