//! Who may talk to the daemon.

use crate::error::{Error, ErrorKind, ErrorModel};
use crate::text;
use vstd::prelude::*;
use vstd::utf8::encode_utf8;

verus! {

/// Who is allowed to connect to the daemon socket, by user id.
#[derive(Debug, Clone, Copy, PartialEq, Eq, Structural)]
pub struct AuthPolicy {
    /// The uid of the daemon itself; always allowed.
    pub self_uid: u32,
    /// An additional allowed uid.
    pub allowed_uid: Option<u32>,
}

impl AuthPolicy {
    /// Whether a peer is authorized.
    pub open spec fn allows(self, peer_uid: u32) -> bool {
        peer_uid == self.self_uid || self.allowed_uid == Some(peer_uid)
    }

    /// A policy for the daemon's uid alone.
    #[must_use]
    pub fn same_uid(self_uid: u32) -> (r: AuthPolicy)
        ensures
            r.self_uid == self_uid,
            r.allowed_uid is None,
    {
        AuthPolicy { self_uid, allowed_uid: None }
    }

    /// A policy for the daemon's uid and another one.
    #[must_use]
    pub fn with_allowed(self_uid: u32, allowed_uid: u32) -> (r: AuthPolicy)
        ensures
            r.self_uid == self_uid,
            r.allowed_uid == Some(allowed_uid),
    {
        AuthPolicy { self_uid, allowed_uid: Some(allowed_uid) }
    }

    /// Whether a peer with the given uid is authorized.
    #[must_use]
    pub fn permits(&self, peer_uid: u32) -> (r: bool)
        ensures
            r == self.allows(peer_uid),
    {
        if peer_uid == self.self_uid {
            return true;
        }
        match self.allowed_uid {
            Some(u) => u == peer_uid,
            None => false,
        }
    }

    /// Whether a connection is kept, given the peer's credentials or why they
    /// could not be read. One whose credentials are unknown is not.
    #[must_use]
    pub fn welcomes(&self, peer: &Result<u32, Error>) -> (r: bool)
        ensures
            r == (*peer matches Ok(uid) && self.allows(uid)),
    {
        match peer {
            Ok(uid) => self.permits(*uid),
            Err(_) => false,
        }
    }
}

/// The daemon itself is always permitted, and nobody but it and the one
/// configured uid.
pub proof fn law_only_named_uids(policy: AuthPolicy, peer: u32)
    ensures
        policy.allows(policy.self_uid),
        policy.allowed_uid is None ==> (policy.allows(peer) <==> peer == policy.self_uid),
        policy.allowed_uid matches Some(u) ==> (policy.allows(peer) <==> peer == policy.self_uid
            || peer == u),
{
}

/// The first word of `s`.
pub open spec fn first_word(s: Seq<char>) -> Seq<char> {
    until_space(text::trimmed_start(s))
}

/// What stands before the first white space.
pub open spec fn until_space(s: Seq<char>) -> Seq<char>
    decreases s.len(),
{
    if s.len() == 0 || text::is_space(s[0]) {
        Seq::empty()
    } else {
        seq![s[0]] + until_space(s.skip(1))
    }
}

/// The uid in a line of a process status, where it is that line.
pub open spec fn uid_in_line(line: Seq<char>) -> Option<nat> {
    if "Uid:"@.is_prefix_of(line) {
        match text::uint_value(first_word(line.skip(4))) {
            Some(n) => if n <= u32::MAX {
                Some(n)
            } else {
                None
            },
            None => None,
        }
    } else {
        None
    }
}

/// The uid in the first line that holds one; 0 where none does.
pub open spec fn uid_in_lines(lines: Seq<Seq<char>>) -> nat
    decreases lines.len(),
{
    if lines.len() == 0 {
        0
    } else {
        match uid_in_line(lines[0]) {
            Some(n) => n,
            None => uid_in_lines(lines.skip(1)),
        }
    }
}

proof fn lemma_until_space(s: Seq<char>, k: int)
    requires
        0 <= k <= s.len(),
        forall|j: int| 0 <= j < k ==> !text::is_space(#[trigger] s[j]),
        k < s.len() ==> text::is_space(s[k]),
    ensures
        until_space(s) == s.take(k),
    decreases s.len(),
{
    if k > 0 {
        let t = s.skip(1);
        assert(!text::is_space(s[0]));
        assert forall|j: int| 0 <= j < k - 1 implies !text::is_space(#[trigger] t[j]) by {
            assert(t[j] == s[j + 1]);
        }
        lemma_until_space(t, k - 1);
        assert(s.take(k) =~= seq![s[0]] + t.take(k - 1));
    } else {
        assert(s.take(0) =~= Seq::<char>::empty());
    }
}

fn word(s: &str) -> (r: String)
    ensures
        r@ == first_word(s@),
{
    let t = text::trim_start(s);
    let v = text::chars_of(t.as_str());
    let mut k: usize = 0;
    while k < v.len() && !text::is_whitespace(v[k])
        invariant
            k <= v@.len(),
            forall|j: int| 0 <= j < k ==> !text::is_space(#[trigger] v@[j]),
        decreases v@.len() - k,
    {
        k += 1;
    }
    proof {
        lemma_until_space(t@, k as int);
    }
    let r = t.as_str().substring_char(0, k).to_owned();
    assert(r@ =~= t@.take(k as int));
    r
}

fn line_uid(line: &str) -> (r: Option<u32>)
    ensures
        match r {
            Some(n) => uid_in_line(line@) == Some(n as nat),
            None => uid_in_line(line@) is None,
        },
{
    if !text::starts_with(line, "Uid:") {
        return None;
    }
    proof {
        reveal_strlit("Uid:");
    }
    let n: usize = line.unicode_len();
    let rest = line.substring_char(4, n);
    assert(rest@ =~= line@.skip(4));
    match text::parse_uint(word(rest).as_str(), 4_294_967_295) {
        Some(v) => Some(v as u32),
        None => None,
    }
}

/// The uid that a process status (`/proc/self/status`) names: the first number
/// behind `Uid:`. Where none is found it is 0.
#[must_use]
pub fn uid_from_status(status: &str) -> (r: u32)
    ensures
        r == uid_in_lines(text::pieces(status@, '\n')),
{
    let lines = text::split(status, '\n');
    let ghost all = text::texts(lines@);
    let mut i: usize = 0;
    assert(all.skip(0) =~= all);
    while i < lines.len()
        invariant
            i <= lines@.len(),
            all == text::texts(lines@),
            all == text::pieces(status@, '\n'),
            uid_in_lines(all) == uid_in_lines(all.skip(i as int)),
        decreases lines@.len() - i,
    {
        assert(all.skip(i as int)[0] == lines@[i as int]@);
        if let Some(uid) = line_uid(lines[i].as_str()) {
            return uid;
        }
        assert(all.skip(i as int).skip(1) =~= all.skip(i + 1));
        i += 1;
    }
    0
}

/// The maximum length of a shared token in bytes.
pub const MAX_TOKEN_LEN: usize = 512;

/// The token in the text of a token file, or what is wrong with it.
pub open spec fn token_in(raw: Seq<char>) -> Result<Seq<char>, Seq<char>> {
    let token = text::trimmed_end(raw);
    if token.len() == 0 {
        Err("token file is empty"@)
    } else if encode_utf8(token).len() > MAX_TOKEN_LEN {
        Err("token is too long"@)
    } else {
        Ok(token)
    }
}

/// Reads the shared token from the text of its file; white space and line ends
/// behind it do not count.
pub fn parse_token(raw: &str) -> (r: Result<String, Error>)
    ensures
        match token_in(raw@) {
            Ok(t) => r matches Ok(s) && s@ == t,
            Err(why) => r matches Err(e) && e@ == ErrorModel::of(ErrorKind::Config, why),
        },
{
    let token = text::trim_end(raw);
    if token.as_str().is_empty() {
        return Err(Error::Config("token file is empty".to_owned()));
    }
    if token.as_str().as_bytes_vec().len() > MAX_TOKEN_LEN {
        return Err(Error::Config("token is too long".to_owned()));
    }
    Ok(token)
}

/// Compares two tokens. Every byte of the longer one is looked at, whatever the
/// outcome.
#[must_use]
pub fn tokens_match(a: &str, b: &str) -> (r: bool)
    ensures
        r == (a@ == b@),
{
    let x = a.as_bytes_vec();
    let y = b.as_bytes_vec();
    let n: usize = if x.len() < y.len() {
        y.len()
    } else {
        x.len()
    };
    let mut diff: u8 = if x.len() == y.len() {
        0
    } else {
        1
    };
    let mut i: usize = 0;
    while i < n
        invariant
            i <= n,
            n >= x@.len(),
            n >= y@.len(),
            n == x@.len() || n == y@.len(),
            diff == 0 <==> x@.len() == y@.len() && forall|j: int|
                0 <= j < i ==> #[trigger] x@[j] == y@[j],
        decreases n - i,
    {
        let p: u8 = if i < x.len() {
            x[i]
        } else {
            0
        };
        let q: u8 = if i < y.len() {
            y[i]
        } else {
            0
        };
        let before: u8 = diff;
        diff = diff | (p ^ q);
        assert((before | (p ^ q)) == 0 <==> before == 0 && p == q) by (bit_vector);
        i += 1;
    }
    proof {
        if diff == 0 {
            assert(x@ =~= y@);
            vstd::utf8::encode_utf8_decode_utf8(a@);
            vstd::utf8::encode_utf8_decode_utf8(b@);
        }
    }
    diff == 0
}

/// Whether a connection of the development transport is kept: the peer is on the
/// machine itself and has sent the token.
#[must_use]
pub fn welcomes_peer(loopback: bool, sent: &Result<String, Error>, token: &str) -> (r: bool)
    ensures
        r == (loopback && (*sent matches Ok(t) && t@ == token@)),
{
    match sent {
        Ok(t) => loopback && tokens_match(t.as_str(), token),
        Err(_) => false,
    }
}

/// What the client makes of the daemon's reply to the token.
pub fn after_handshake(accepted: bool) -> (r: Result<(), Error>)
    ensures
        if accepted {
            r is Ok
        } else {
            r matches Err(e) && e@ == ErrorModel::of(
                ErrorKind::Precondition,
                "ipc token handshake rejected"@,
            )
        },
{
    if accepted {
        Ok(())
    } else {
        Err(Error::Precondition("ipc token handshake rejected".to_owned()))
    }
}

/// The token is the text of its file without the white space at its end, and with
/// everything before that: never empty, and at most 512 bytes.
pub proof fn law_tokens_are_kept_whole(raw: Seq<char>, t: Seq<char>)
    requires
        token_in(raw) == Ok::<Seq<char>, Seq<char>>(t),
    ensures
        t.is_prefix_of(raw),
        t.len() > 0,
        !text::is_space(t.last()),
        forall|i: int| t.len() <= i < raw.len() ==> text::is_space(#[trigger] raw[i]),
        encode_utf8(t).len() <= 512,
{
    lemma_trimmed_end_is_front(raw);
}

proof fn lemma_trimmed_end_is_front(s: Seq<char>)
    ensures
        text::trimmed_end(s).is_prefix_of(s),
        text::trimmed_end(s).len() > 0 ==> !text::is_space(text::trimmed_end(s).last()),
        forall|i: int| text::trimmed_end(s).len() <= i < s.len() ==> text::is_space(#[trigger] s[i]),
    decreases s.len(),
{
    let t = text::trimmed_end(s);
    if s.len() > 0 && text::is_space(s.last()) {
        let rest = s.drop_last();
        lemma_trimmed_end_is_front(rest);
        assert(s.subrange(0, t.len() as int) =~= rest.subrange(0, t.len() as int));
        assert forall|i: int| t.len() <= i < s.len() implies text::is_space(#[trigger] s[i]) by {
            if i < rest.len() {
                assert(rest[i] == s[i]);
            }
        }
    } else {
        assert(s.subrange(0, s.len() as int) =~= s);
    }
}

/// The uid of a process is the first number of the first line that starts with
/// `Uid:`, the real uid; without such a line it is 0.
pub proof fn law_uid_is_the_real_one(lines: Seq<Seq<char>>, k: int, uid: u32, rest: Seq<char>)
    requires
        0 <= k <= lines.len(),
        forall|j: int| 0 <= j < k ==> !"Uid:"@.is_prefix_of(#[trigger] lines[j]),
        k < lines.len() ==> lines[k] == "Uid:\t"@ + text::dec(uid as nat) + "\t"@ + rest,
    ensures
        k < lines.len() ==> uid_in_lines(lines) == uid,
        k == lines.len() ==> uid_in_lines(lines) == 0,
    decreases k,
{
    if k == 0 {
        if lines.len() > 0 {
            lemma_uid_line(lines[0], uid, rest);
        }
    } else {
        let more = lines.skip(1);
        assert(!"Uid:"@.is_prefix_of(lines[0]));
        assert forall|j: int| 0 <= j < k - 1 implies !"Uid:"@.is_prefix_of(#[trigger] more[j]) by {
            assert(more[j] == lines[j + 1]);
        }
        law_uid_is_the_real_one(more, k - 1, uid, rest);
    }
}

proof fn lemma_uid_line(line: Seq<char>, uid: u32, rest: Seq<char>)
    requires
        line == "Uid:\t"@ + text::dec(uid as nat) + "\t"@ + rest,
    ensures
        uid_in_line(line) == Some(uid as nat),
{
    reveal_strlit("Uid:");
    reveal_strlit("Uid:\t");
    reveal_strlit("\t");
    let digits = text::dec(uid as nat);
    text::lemma_dec_reads_back(uid as nat);
    let n = digits.len() as int;
    assert(line.subrange(0, 4) =~= "Uid:"@);
    let tail = line.skip(4);
    let k = text::lemma_lead(tail);
    assert(text::is_space(tail[0]));
    assert(tail[1] == digits[0]);
    assert(k == 1);
    let word = tail.skip(1);
    assert forall|j: int| 0 <= j < n implies !text::is_space(#[trigger] word[j]) by {
        assert(word[j] == digits[j]);
    }
    assert(word[n] == '\t');
    lemma_until_space(word, n);
    assert(word.take(n) =~= digits);
}

} // verus!
