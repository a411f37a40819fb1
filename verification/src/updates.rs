//! Live updates: every open event stream of a user hears of the changes
//! that the user's other sessions make to documents.

use vstd::prelude::*;
use vstd::utf8::encode_utf8;
use crate::user::AuthorizedUser;

verus! {

#[verifier::external_type_specification]
#[verifier::external_body]
#[verifier::reject_recursive_types(T)]
pub struct ExSender<T>(tokio::sync::mpsc::Sender<T>);

#[verifier::external_type_specification]
#[verifier::external_body]
#[verifier::reject_recursive_types(T)]
pub struct ExReceiver<T>(tokio::sync::mpsc::Receiver<T>);

/// The number of messages a client's stream holds before further ones are
/// dropped.
pub const CLIENT_BUFFER: usize = 100;

/// Calls `tokio::sync::mpsc::channel`, which panics on a zero buffer and on
/// a buffer above tokio's permit limit `usize::MAX >> 3`, that is
/// `usize::MAX / 8` (both left out by
/// `requires`). Nothing is claimed of the two ends beyond their types.
#[verifier::external_body]
fn channel(buffer: usize) -> (r: (tokio::sync::mpsc::Sender<Vec<u8>>, tokio::sync::mpsc::Receiver<Vec<u8>>))
    requires
        0 < buffer <= usize::MAX / 8,
{
    tokio::sync::mpsc::channel(buffer)
}

/// Calls `tokio::sync::mpsc::Sender::try_send`; `true` where the message
/// was queued. Whether it is depends on the receiving end (closed, full),
/// so nothing is claimed of the result.
#[verifier::external_body]
fn try_send(tx: &tokio::sync::mpsc::Sender<Vec<u8>>, message: Vec<u8>) -> (r: bool) {
    tx.try_send(message).is_ok()
}

/// An open event stream: the user and session it belongs to, the sending
/// end of its messages, and (in proofs only) the frames handed to that
/// sending end so far, each with whether it was queued.
pub struct Client {
    pub username: String,
    pub uuid: u128,
    pub tx: tokio::sync::mpsc::Sender<Vec<u8>>,
    pub offered: Ghost<Seq<(Seq<u8>, bool)>>,
}

/// Whether two clients are the same stream: same user, session and sender.
pub open spec fn spec_same_stream(a: Client, b: Client) -> bool {
    a.username == b.username && a.uuid == b.uuid && a.tx == b.tx
}

/// A stream after one more frame was handed to it.
pub open spec fn spec_offered(c: Client, frame: Seq<u8>, queued: bool) -> Client {
    Client {
        username: c.username,
        uuid: c.uuid,
        tx: c.tx,
        offered: Ghost(c.offered@.push((frame, queued))),
    }
}

impl Client {
    /// A stream for the user's session, and the receiving end of its
    /// messages; nothing has been handed to it yet.
    pub fn new(user: AuthorizedUser) -> (r: (Client, tokio::sync::mpsc::Receiver<Vec<u8>>))
        ensures
            r.0.username == user.username,
            r.0.uuid == user.uuid,
            r.0.offered@ == Seq::<(Seq<u8>, bool)>::empty(),
    {
        let (tx, rx) = channel(CLIENT_BUFFER);
        let username = user.username;
        let uuid = user.uuid;
        (Client { username, uuid, tx, offered: Ghost(Seq::empty()) }, rx)
    }

    /// Hands a frame to the stream's sending end; `true` where it was
    /// queued, which depends on the receiving end (closed, full).
    pub fn offer(&mut self, frame: Vec<u8>) -> (r: bool)
        ensures
            *final(self) == spec_offered(*old(self), frame@, r),
    {
        let ghost f = frame@;
        let queued = try_send(&self.tx, frame);
        self.offered = Ghost(self.offered@.push((f, queued)));
        queued
    }
}

pub open spec fn spec_same_user_on_different_session(c: Client, b: AuthorizedUser) -> bool {
    c.username@ == b.username@ && c.uuid != b.uuid
}

/// Whether a stream belongs to the same user as a request but to another
/// of that user's sessions: the streams that hear of the request's change.
pub fn is_same_user_on_different_session(c: &Client, b: &AuthorizedUser) -> (r: bool)
    ensures
        r == spec_same_user_on_different_session(*c, *b),
        r == (c.username@ == b.username@ && c.uuid != b.uuid),
{
    c.username == b.username && c.uuid != b.uuid
}

fn append_bytes(v: &mut Vec<u8>, s: &[u8])
    ensures
        final(v)@ == old(v)@ + s@,
{
    let ghost start = v@;
    let mut i: usize = 0;
    while i < s.len()
        invariant
            i <= s@.len(),
            v@ == start + s@.subrange(0, i as int),
        decreases s@.len() - i,
    {
        v.push(s[i]);
        proof {
            assert(s@.subrange(0, i + 1) =~= s@.subrange(0, i as int).push(s@[i as int]));
        }
        i = i + 1;
    }
    proof {
        assert(s@.subrange(0, s@.len() as int) =~= s@);
    }
}

/// A server-sent event: `event: <type>`, `data: <data>` and a blank line.
pub open spec fn spec_event_message(event_type: Seq<u8>, data: Seq<u8>) -> Seq<u8> {
    encode_utf8("event: "@) + event_type + encode_utf8("\ndata: "@) + data + encode_utf8("\n\n"@)
}

/// The server-sent event of a change.
pub fn event_message(event_type: &[u8], data: &[u8]) -> (r: Vec<u8>)
    ensures
        r@ == spec_event_message(event_type@, data@),
{
    let mut v: Vec<u8> = Vec::new();
    append_bytes(&mut v, "event: ".as_bytes());
    append_bytes(&mut v, event_type);
    append_bytes(&mut v, "\ndata: ".as_bytes());
    append_bytes(&mut v, data);
    append_bytes(&mut v, "\n\n".as_bytes());
    v
}

/// The clients that survive a round of pings, given which of them were
/// alive: the live ones in reverse order (the first client ends up last).
pub open spec fn spec_alive_reversed(clients: Seq<Client>, alive: Seq<bool>) -> Seq<Client>
    decreases clients.len(),
{
    if clients.len() == 0 || alive.len() == 0 {
        Seq::empty()
    } else {
        spec_alive_reversed(clients.drop_first(), alive.drop_first()) + (if alive[0] {
            seq![clients[0]]
        } else {
            Seq::empty()
        })
    }
}

/// The indices of the clients that hear of a change made by a request.
pub open spec fn spec_recipients(clients: Seq<Client>, login: AuthorizedUser, r: Seq<usize>) -> bool {
    &&& forall|k: int| 0 <= k < r.len() ==> (#[trigger] r[k]) < clients.len()
        && spec_same_user_on_different_session(clients[r[k] as int], login)
    &&& forall|i: int| 0 <= i < clients.len() && spec_same_user_on_different_session(clients[i], login)
        ==> r.contains(i as usize)
    &&& forall|k: int, l: int| 0 <= k < l < r.len() ==> r[k] < r[l]
}

/// The notices of a change: the positions, in order, of exactly the
/// streams that hear of it, each with the same event frame.
pub open spec fn spec_notices(clients: Seq<Client>, event_type: Seq<u8>, data: Seq<u8>, login: AuthorizedUser, r: Seq<(usize, Vec<u8>)>) -> bool {
    &&& spec_recipients(clients, login, Seq::new(r.len(), |j: int| r[j].0))
    &&& forall|j: int| 0 <= j < r.len() ==> (#[trigger] r[j]).1@ == spec_event_message(event_type, data)
}

fn copy_bytes(s: &[u8]) -> (r: Vec<u8>)
    ensures
        r@ == s@,
{
    let mut v: Vec<u8> = Vec::new();
    append_bytes(&mut v, s);
    v
}

/// The ping that a stream is sent to learn whether it is still open.
pub open spec fn spec_ping_message() -> Seq<u8> {
    encode_utf8("data: ping\n\n"@)
}

/// The ping frame.
pub fn ping_message() -> (r: Vec<u8>)
    ensures
        r@ == spec_ping_message(),
{
    copy_bytes("data: ping\n\n".as_bytes())
}

/// The streams that survive a round of pings, given for each stream (by
/// its position) whether it took the ping: those that did, the newest
/// first.
pub fn survivors(clients: Vec<Client>, alive: &Vec<bool>) -> (r: Vec<Client>)
    requires
        alive@.len() == clients@.len(),
    ensures
        r@ == spec_alive_reversed(clients@, alive@),
{
    let ghost given = clients@;
    let ghost n = given.len();
    let mut rest = clients;
    let mut kept: Vec<Client> = Vec::new();
    while rest.len() > 0
        invariant
            rest@.len() <= n,
            n == given.len(),
            alive@.len() == n,
            rest@ == given.subrange(0, rest@.len() as int),
            kept@ == spec_alive_reversed(given.subrange(rest@.len() as int, n as int), alive@.subrange(rest@.len() as int, n as int)),
        decreases rest@.len(),
    {
        let ghost k = rest@.len();
        let client = rest.pop().unwrap();
        let ok = alive[rest.len()];
        proof {
            let s = given.subrange(k - 1, n as int);
            let a = alive@.subrange(k - 1, n as int);
            assert(s.drop_first() =~= given.subrange(k as int, n as int));
            assert(a.drop_first() =~= alive@.subrange(k as int, n as int));
            assert(s[0] == client);
            assert(a[0] == ok);
        }
        if ok {
            kept.push(client);
        }
    }
    proof {
        assert(given.subrange(0, n as int) =~= given);
        assert(alive@.subrange(0, n as int) =~= alive@);
    }
    kept
}

/// After a change: the streams of the same user's other sessions have
/// each been handed the frame once more, and every other stream is as it
/// was.
pub open spec fn spec_changes_handed(before: Seq<Client>, after: Seq<Client>, frame: Seq<u8>, login: AuthorizedUser) -> bool {
    &&& after.len() == before.len()
    &&& forall|j: int| 0 <= j < before.len() ==> {
        if spec_same_user_on_different_session(before[j], login) {
            spec_handed(before[j], #[trigger] after[j], frame)
        } else {
            after[j] == before[j]
        }
    }
}

/// The open event streams.
pub struct ClientUpdates {
    clients: Vec<Client>,
    removed: Ghost<Seq<Client>>,
}

impl View for ClientUpdates {
    type V = Seq<Client>;

    closed spec fn view(&self) -> Seq<Client> {
        self.clients@
    }
}

/// The streams of a round of pings, each with the ping frame handed to it
/// and whether it was queued.
pub open spec fn spec_pinged(clients: Seq<Client>, queued: Seq<bool>) -> Seq<Client> {
    Seq::new(clients.len(), |i: int| spec_offered(clients[i], spec_ping_message(), queued[i]))
}

pub open spec fn spec_negated(b: Seq<bool>) -> Seq<bool> {
    Seq::new(b.len(), |i: int| !b[i])
}

/// A stream after a change frame was handed to it (whether queued or not).
pub open spec fn spec_handed(before: Client, after: Client, frame: Seq<u8>) -> bool {
    &&& spec_same_stream(before, after)
    &&& after.offered@.len() == before.offered@.len() + 1
    &&& after.offered@.subrange(0, before.offered@.len() as int) == before.offered@
    &&& after.offered@.last().0 == frame
}

impl ClientUpdates {
    /// The streams dropped so far as stale, with what was handed to them
    /// (in proofs only).
    pub closed spec fn removed(&self) -> Seq<Client> {
        self.removed@
    }

    /// No open streams.
    pub fn new() -> (r: ClientUpdates)
        ensures
            r@ == Seq::<Client>::empty(),
            r.removed() == Seq::<Client>::empty(),
    {
        ClientUpdates { clients: Vec::new(), removed: Ghost(Seq::empty()) }
    }

    /// The open streams, oldest first.
    pub fn clients(&self) -> (r: &Vec<Client>)
        ensures
            r@ == self@,
    {
        &self.clients
    }

    /// Opens a stream for a user's session; returns its receiving end.
    pub fn new_client(&mut self, user: AuthorizedUser) -> (r: tokio::sync::mpsc::Receiver<Vec<u8>>)
        ensures
            final(self)@.len() == old(self)@.len() + 1,
            final(self)@.subrange(0, old(self)@.len() as int) == old(self)@,
            final(self)@.last().username == user.username,
            final(self)@.last().uuid == user.uuid,
            final(self)@.last().offered@ == Seq::<(Seq<u8>, bool)>::empty(),
            final(self).removed() == old(self).removed(),
    {
        let ghost before = self.clients@;
        let (client, rx) = Client::new(user);
        self.clients.push(client);
        proof {
            assert(self.clients@.subrange(0, before.len() as int) =~= before);
        }
        rx
    }

    /// Pings every stream, the newest first: hands each the ping frame and
    /// answers for each stream (by its position) whether it was queued.
    pub fn ping(&mut self) -> (r: Vec<bool>)
        ensures
            r@.len() == old(self)@.len(),
            final(self)@ == spec_pinged(old(self)@, r@),
            final(self).removed() == old(self).removed(),
    {
        let ghost before = self.clients@;
        let n = self.clients.len();
        let mut newest_first: Vec<bool> = Vec::new();
        let mut i: usize = n;
        while i > 0
            invariant
                i <= n,
                n == before.len(),
                self.clients@.len() == n,
                self.removed@ == old(self).removed@,
                newest_first@.len() == n - i,
                forall|j: int| 0 <= j < i ==> #[trigger] self.clients@[j] == before[j],
                forall|j: int| i <= j < n ==> #[trigger] self.clients@[j]
                    == spec_offered(before[j], spec_ping_message(), newest_first@[n - 1 - j]),
            decreases i,
        {
            i = i - 1;
            let ok = self.clients[i].offer(ping_message());
            newest_first.push(ok);
        }
        let mut alive: Vec<bool> = Vec::new();
        let mut k: usize = n;
        while k > 0
            invariant
                k <= n,
                newest_first@.len() == n,
                alive@.len() == n - k,
                forall|j: int| 0 <= j < n - k ==> #[trigger] alive@[j] == newest_first@[n - 1 - j],
            decreases k,
        {
            k = k - 1;
            alive.push(newest_first[k]);
        }
        proof {
            assert(self.clients@ =~= spec_pinged(before, alive@));
        }
        alive
    }

    /// Pings every stream and keeps exactly those that queued the ping, in
    /// reverse order: the streams become `survivors` of the outcomes of
    /// `ping`, and the others are recorded as removed.
    pub fn remove_stale_clients(&mut self)
        ensures
            exists|queued: Seq<bool>| queued.len() == old(self)@.len()
                && final(self)@ == spec_alive_reversed(spec_pinged(old(self)@, queued), queued)
                && final(self).removed() == old(self).removed()
                    + spec_alive_reversed(spec_pinged(old(self)@, queued), spec_negated(queued)),
    {
        let alive = self.ping();
        let ghost pinged = self.clients@;
        let mut clients: Vec<Client> = Vec::new();
        std::mem::swap(&mut clients, &mut self.clients);
        self.removed = Ghost(self.removed@ + spec_alive_reversed(pinged, spec_negated(alive@)));
        self.clients = survivors(clients, &alive);
        assert(alive@.len() == old(self)@.len()
            && self@ == spec_alive_reversed(spec_pinged(old(self)@, alive@), alive@)
            && self.removed() == old(self).removed()
                + spec_alive_reversed(spec_pinged(old(self)@, alive@), spec_negated(alive@)));
    }

    /// The change notices for a request: for each stream of the same
    /// user's other sessions, in order, its position and the event frame.
    pub fn notices(&self, event_type: &[u8], data: &[u8], login: &AuthorizedUser) -> (r: Vec<(usize, Vec<u8>)>)
        ensures
            spec_notices(self@, event_type@, data@, *login, r@),
    {
        let message = event_message(event_type, data);
        let targets = self.recipients(login);
        let mut r: Vec<(usize, Vec<u8>)> = Vec::new();
        let mut k: usize = 0;
        while k < targets.len()
            invariant
                k <= targets@.len(),
                r@.len() == k,
                message@ == spec_event_message(event_type@, data@),
                forall|j: int| 0 <= j < k ==> (#[trigger] r@[j]).0 == targets@[j]
                    && r@[j].1@ == spec_event_message(event_type@, data@),
            decreases targets@.len() - k,
        {
            r.push((targets[k], copy_bytes(message.as_slice())));
            k = k + 1;
        }
        proof {
            assert(Seq::new(r@.len(), |j: int| r@[j].0) =~= targets@);
        }
        r
    }

    /// The indices, in order, of the streams that hear of a change made by
    /// a request: those of the same user's other sessions.
    pub fn recipients(&self, login: &AuthorizedUser) -> (r: Vec<usize>)
        ensures
            spec_recipients(self@, *login, r@),
    {
        let mut r: Vec<usize> = Vec::new();
        let mut i: usize = 0;
        while i < self.clients.len()
            invariant
                i <= self.clients@.len(),
                forall|k: int| 0 <= k < r@.len() ==> (#[trigger] r@[k]) < i
                    && spec_same_user_on_different_session(self.clients@[r@[k] as int], *login),
                forall|j: int| 0 <= j < i && spec_same_user_on_different_session(self.clients@[j], *login)
                    ==> r@.contains(j as usize),
                forall|k: int, l: int| 0 <= k < l < r@.len() ==> r@[k] < r@[l],
            decreases self.clients@.len() - i,
        {
            if is_same_user_on_different_session(&self.clients[i], login) {
                let ghost before = r@;
                r.push(i);
                proof {
                    assert forall|j: int| 0 <= j < i && spec_same_user_on_different_session(self.clients@[j], *login)
                        implies r@.contains(j as usize) by {
                        let k = choose|k: int| 0 <= k < before.len() && before[k] == j as usize;
                        assert(r@[k] == j as usize);
                    }
                    assert(r@[before.len() as int] == i);
                }
            }
            i = i + 1;
        }
        r
    }

    /// Hands a change to the streams of the same user's other sessions, in
    /// order, and answers with the notices handed. A stream that is full or
    /// closed misses it.
    fn msg(&mut self, event_type: &[u8], data: &[u8], login: &AuthorizedUser) -> (r: Vec<(usize, Vec<u8>)>)
        ensures
            spec_notices(old(self)@, event_type@, data@, *login, r@),
            spec_changes_handed(old(self)@, final(self)@, spec_event_message(event_type@, data@), *login),
            final(self).removed() == old(self).removed(),
    {
        let notices = self.notices(event_type, data, login);
        let ghost before = self.clients@;
        let ghost frame = spec_event_message(event_type@, data@);
        let ghost positions = Seq::new(notices@.len(), |j: int| notices@[j].0);
        let mut k: usize = 0;
        while k < notices.len()
            invariant
                k <= notices@.len(),
                spec_notices(before, event_type@, data@, *login, notices@),
                positions == Seq::new(notices@.len(), |j: int| notices@[j].0),
                frame == spec_event_message(event_type@, data@),
                self.clients@.len() == before.len(),
                self.removed@ == old(self).removed@,
                forall|j: int| 0 <= j < before.len() ==> {
                    if exists|m: int| 0 <= m < k && positions[m] == j {
                        spec_handed(before[j], #[trigger] self.clients@[j], frame)
                    } else {
                        self.clients@[j] == before[j]
                    }
                },
            decreases notices@.len() - k,
        {
            let i = notices[k].0;
            assert(positions[k as int] == i);
            let ghost prev = self.clients@;
            proof {
                if exists|m: int| 0 <= m < k && positions[m] == i as int {
                    let m = choose|m: int| 0 <= m < k && positions[m] == i as int;
                    assert(positions[m] < positions[k as int]);
                }
                assert(prev[i as int] == before[i as int]);
            }
            let _ = self.clients[i].offer(copy_bytes(notices[k].1.as_slice()));
            proof {
                assert forall|j: int| 0 <= j < before.len() implies {
                    if exists|m: int| 0 <= m < k + 1 && positions[m] == j {
                        spec_handed(before[j], #[trigger] self.clients@[j], frame)
                    } else {
                        self.clients@[j] == before[j]
                    }
                } by {
                    if j == i as int {
                        assert(positions[k as int] == j);
                        assert(self.clients@[j].offered@.subrange(0, before[j].offered@.len() as int) =~= before[j].offered@);
                    } else {
                        assert(self.clients@[j] == prev[j]);
                        if exists|m: int| 0 <= m < k + 1 && positions[m] == j {
                            let m = choose|m: int| 0 <= m < k + 1 && positions[m] == j;
                            assert(m < k);
                        }
                    }
                }
            }
            k = k + 1;
        }
        let n = self.clients.len();
        proof {
            assert(n == before.len());
            assert forall|j: int| 0 <= j < before.len() implies {
                if spec_same_user_on_different_session(before[j], *login) {
                    spec_handed(before[j], #[trigger] self.clients@[j], frame)
                } else {
                    self.clients@[j] == before[j]
                }
            } by {
                if spec_same_user_on_different_session(before[j], *login) {
                    assert(positions.contains(j as usize));
                    assert((j as usize) as int == j);
                    let m = choose|m: int| 0 <= m < positions.len() && positions[m] == j as usize;
                    assert(positions[m] == j);
                } else {
                    if exists|m: int| 0 <= m < notices@.len() && positions[m] == j {
                        let m = choose|m: int| 0 <= m < notices@.len() && positions[m] == j;
                        assert(spec_same_user_on_different_session(before[positions[m] as int], *login));
                    }
                }
            }
        }
        notices
    }

    /// Tells the user's other sessions of a stored document, given as its
    /// JSON text: hands each the `insert` frame, and answers with the
    /// notices handed.
    pub fn inserted(&mut self, document: &[u8], login: &AuthorizedUser) -> (r: Vec<(usize, Vec<u8>)>)
        ensures
            spec_notices(old(self)@, encode_utf8("insert"@), document@, *login, r@),
            spec_changes_handed(old(self)@, final(self)@, spec_event_message(encode_utf8("insert"@), document@), *login),
            final(self).removed() == old(self).removed(),
    {
        self.msg("insert".as_bytes(), document, login)
    }

    /// Tells the user's other sessions of an updated document, given as its
    /// JSON text: hands each the `update` frame, and answers with the
    /// notices handed.
    pub fn updated(&mut self, document: &[u8], login: &AuthorizedUser) -> (r: Vec<(usize, Vec<u8>)>)
        ensures
            spec_notices(old(self)@, encode_utf8("update"@), document@, *login, r@),
            spec_changes_handed(old(self)@, final(self)@, spec_event_message(encode_utf8("update"@), document@), *login),
            final(self).removed() == old(self).removed(),
    {
        self.msg("update".as_bytes(), document, login)
    }

    /// Tells the user's other sessions of a deleted document: hands each
    /// the `delete` frame with its id, and answers with the notices handed.
    pub fn deleted(&mut self, id: &str, login: &AuthorizedUser) -> (r: Vec<(usize, Vec<u8>)>)
        ensures
            spec_notices(old(self)@, encode_utf8("delete"@), encode_utf8(id@), *login, r@),
            spec_changes_handed(old(self)@, final(self)@, spec_event_message(encode_utf8("delete"@), encode_utf8(id@)), *login),
            final(self).removed() == old(self).removed(),
    {
        self.msg("delete".as_bytes(), id.as_bytes(), login)
    }
}

/// A round of pings never adds a stream: every stream kept was open before.
pub proof fn lemma_alive_reversed_subset(clients: Seq<Client>, alive: Seq<bool>)
    ensures
        spec_alive_reversed(clients, alive).len() <= clients.len(),
        forall|c: Client| spec_alive_reversed(clients, alive).contains(c) ==> clients.contains(c),
    decreases clients.len(),
{
    if clients.len() == 0 || alive.len() == 0 {
    } else {
        let rest = clients.drop_first();
        lemma_alive_reversed_subset(rest, alive.drop_first());
        let tail = if alive[0] { seq![clients[0]] } else { Seq::<Client>::empty() };
        let r = spec_alive_reversed(rest, alive.drop_first());
        assert forall|c: Client| (r + tail).contains(c) implies clients.contains(c) by {
            let k = choose|k: int| 0 <= k < (r + tail).len() && (r + tail)[k] == c;
            if k < r.len() {
                assert(r.contains(c));
                assert(rest.contains(c));
                let m = choose|m: int| 0 <= m < rest.len() && rest[m] == c;
                assert(clients[m + 1] == c);
            } else {
                assert(clients[0] == c);
            }
        }
    }
}

proof fn lemma_alive_reversed_members(clients: Seq<Client>, alive: Seq<bool>)
    ensures
        forall|c: Client| #[trigger] spec_alive_reversed(clients, alive).contains(c) ==>
            exists|i: int| 0 <= i < clients.len() && i < alive.len() && clients[i] == c && alive[i],
    decreases clients.len(),
{
    if clients.len() == 0 || alive.len() == 0 {
    } else {
        let rest = clients.drop_first();
        let a = alive.drop_first();
        lemma_alive_reversed_members(rest, a);
        let tail = if alive[0] { seq![clients[0]] } else { Seq::<Client>::empty() };
        let r = spec_alive_reversed(rest, a);
        assert forall|c: Client| #[trigger] (r + tail).contains(c) implies
            exists|i: int| 0 <= i < clients.len() && i < alive.len() && clients[i] == c && alive[i] by {
            let k = choose|k: int| 0 <= k < (r + tail).len() && (r + tail)[k] == c;
            if k < r.len() {
                assert(r.contains(c));
                let i = choose|i: int| 0 <= i < rest.len() && i < a.len() && rest[i] == c && a[i];
                assert(clients[i + 1] == c && alive[i + 1]);
            } else {
                assert(clients[0] == c && alive[0]);
            }
        }
    }
}

/// After a round of pings, every stream kept was last handed the ping and
/// queued it, and every stream removed was last handed the ping and did not
/// queue it.
pub proof fn lemma_ping_round(clients: Seq<Client>, queued: Seq<bool>)
    requires
        queued.len() == clients.len(),
    ensures
        forall|c: Client| #[trigger] spec_alive_reversed(spec_pinged(clients, queued), queued).contains(c)
            ==> c.offered@.last() == (spec_ping_message(), true),
        forall|c: Client| #[trigger] spec_alive_reversed(spec_pinged(clients, queued), spec_negated(queued)).contains(c)
            ==> c.offered@.last() == (spec_ping_message(), false),
{
    let p = spec_pinged(clients, queued);
    lemma_alive_reversed_members(p, queued);
    lemma_alive_reversed_members(p, spec_negated(queued));
}

/// A stream hears of a request's change exactly when it belongs to the
/// same user name and to another session (any other session UUID).
pub proof fn lemma_same_user_on_different_session(c: Client, b: AuthorizedUser)
    ensures
        spec_same_user_on_different_session(c, b) <==> (c.username@ == b.username@ && c.uuid != b.uuid),
{
}

/// The notices of a change name exactly the streams of the same user name
/// with another session UUID, each once, in order.
pub proof fn lemma_notices_exact(clients: Seq<Client>, event_type: Seq<u8>, data: Seq<u8>, login: AuthorizedUser, r: Seq<(usize, Vec<u8>)>)
    requires
        clients.len() <= usize::MAX,
        spec_notices(clients, event_type, data, login, r),
    ensures
        forall|k: int| 0 <= k < r.len() ==> (#[trigger] r[k]).0 < clients.len()
            && clients[r[k].0 as int].username@ == login.username@ && clients[r[k].0 as int].uuid != login.uuid,
        forall|i: int| 0 <= i < clients.len() && clients[i].username@ == login.username@ && clients[i].uuid != login.uuid
            ==> exists|k: int| 0 <= k < r.len() && r[k].0 == i,
        forall|k: int, l: int| 0 <= k < l < r.len() ==> r[k].0 < r[l].0,
{
    let positions = Seq::new(r.len(), |j: int| r[j].0);
    assert forall|k: int| 0 <= k < r.len() implies (#[trigger] r[k]).0 < clients.len()
        && clients[r[k].0 as int].username@ == login.username@ && clients[r[k].0 as int].uuid != login.uuid by {
        assert(positions[k] == r[k].0);
    }
    assert forall|i: int| 0 <= i < clients.len() && clients[i].username@ == login.username@ && clients[i].uuid != login.uuid
        implies exists|k: int| 0 <= k < r.len() && r[k].0 == i by {
        assert(spec_same_user_on_different_session(clients[i], login));
        assert((i as usize) as int == i);
        assert(positions.contains(i as usize));
        let k = choose|k: int| 0 <= k < positions.len() && positions[k] == i as usize;
        assert(r[k].0 == i);
    }
    assert forall|k: int, l: int| 0 <= k < l < r.len() implies r[k].0 < r[l].0 by {
        assert(positions[k] == r[k].0 && positions[l] == r[l].0);
    }
}

/// A change is never sent back to the session that made it, nor to another
/// user's stream.
pub proof fn lemma_recipients_exclude_own_session(clients: Seq<Client>, login: AuthorizedUser, r: Seq<usize>, k: int)
    requires
        spec_recipients(clients, login, r),
        0 <= k < r.len(),
    ensures
        clients[r[k] as int].uuid != login.uuid,
        clients[r[k] as int].username@ == login.username@,
{
}

} // verus!
