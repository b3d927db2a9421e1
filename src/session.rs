//! The client's side of request correlation: request identifiers, the one
//! request that waits for its reply, and whether the client is stopped.

use vstd::prelude::*;
use vstd::string::*;
use crate::json::{Field, field_of};
use crate::message::{ClientError};
use crate::message::read_field;

verus! {

pub open spec fn digit(d: nat) -> char {
    if d == 0 { '0' }
    else if d == 1 { '1' }
    else if d == 2 { '2' }
    else if d == 3 { '3' }
    else if d == 4 { '4' }
    else if d == 5 { '5' }
    else if d == 6 { '6' }
    else if d == 7 { '7' }
    else if d == 8 { '8' }
    else { '9' }
}

/// The decimal digits of `n`, without leading zeros.
pub open spec fn decimal(n: nat) -> Seq<char>
    decreases n,
{
    if n < 10 {
        seq![digit(n)]
    } else {
        decimal(n / 10).push(digit(n % 10))
    }
}

/// The identifier of the `n`-th request of a client, counting from one.
pub open spec fn request_id(n: nat) -> Seq<char> {
    "req-"@ + decimal(n)
}

fn digit_text(d: u64) -> (r: &'static str)
    requires
        d < 10,
    ensures
        r@ == seq![digit(d as nat)],
{
    let r = if d == 0 { "0" } else if d == 1 { "1" } else if d == 2 { "2" } else if d == 3 { "3" }
        else if d == 4 { "4" } else if d == 5 { "5" } else if d == 6 { "6" } else if d == 7 { "7" }
        else if d == 8 { "8" } else { "9" };
    proof {
        reveal_strlit("0");
        reveal_strlit("1");
        reveal_strlit("2");
        reveal_strlit("3");
        reveal_strlit("4");
        reveal_strlit("5");
        reveal_strlit("6");
        reveal_strlit("7");
        reveal_strlit("8");
        reveal_strlit("9");
        assert(r@ =~= seq![digit(d as nat)]);
    }
    r
}

/// The decimal digits of `n`.
fn decimal_text(n: u64) -> (r: String)
    ensures
        r@ == decimal(n as nat),
    decreases n,
{
    if n < 10 {
        String::from_str(digit_text(n))
    } else {
        let mut s = decimal_text(n / 10);
        s.append(digit_text(n % 10));
        s
    }
}

/// The state of a client between its commands.
pub struct Session {
    /// How many request identifiers have been handed out.
    pub issued: u64,
    /// The identifier of the request that waits for its reply, if one does.
    pub awaiting: Option<String>,
    /// False once the client is stopped.
    pub open: bool,
}

/// What a waiting request does with what came from the reply channel.
pub enum WaitStep {
    /// The reply to the waiting request.
    Done(serde_json::Value),
    /// A reply to something else, dropped: wait on.
    Wait,
    /// The wait failed.
    Fail(ClientError),
}

/// The session as `stop` leaves it.
pub open spec fn stopped(s: Session) -> Session {
    Session { issued: s.issued, awaiting: None, open: false }
}

/// The session takes new commands: it has not been stopped.
pub open spec fn accepts_commands(s: Session) -> bool {
    s.open
}

/// A reply whose `id` member is `id` answers the request that waits.
pub open spec fn answers(awaiting: Option<String>, id: Field) -> bool {
    &&& awaiting is Some
    &&& id is Text
    &&& id->Text_0@ == awaiting->Some_0@
}

impl Session {
    /// A request waits only under the identifier last handed out, and a
    /// stopped session has none waiting.
    pub open spec fn wf(&self) -> bool {
        &&& self.awaiting is Some ==> self.awaiting->Some_0@ == request_id(self.issued as nat)
        &&& !self.open ==> self.awaiting is None
    }

    /// A fresh session: open, no identifier handed out, nothing waiting.
    pub fn new() -> (r: Session)
        ensures
            r.wf(),
            r.open,
            r.issued == 0,
            r.awaiting is None,
    {
        Session { issued: 0, awaiting: None, open: true }
    }

    /// True once every request identifier has been handed out.
    pub fn exhausted(&self) -> (r: bool)
        ensures
            r == (self.issued == u64::MAX),
    {
        self.issued == u64::MAX
    }

    /// Starts a request: hands out the next identifier and waits under it.
    /// A stopped session refuses, as its input pipe is gone; the identifier
    /// it drew is used up all the same.
    pub fn begin(&mut self) -> (r: Result<String, ClientError>)
        requires
            old(self).wf(),
            old(self).issued < u64::MAX,
        ensures
            final(self).wf(),
            final(self).issued == old(self).issued + 1,
            !accepts_commands(*old(self)) ==> {
                &&& r == Err::<String, ClientError>(ClientError::Write)
                &&& !final(self).open
                &&& final(self).awaiting is None
            },
            accepts_commands(*old(self)) ==> {
                &&& r is Ok
                &&& final(self).issued == old(self).issued + 1
                &&& final(self).open
                &&& r->Ok_0@ == request_id(final(self).issued as nat)
                &&& final(self).awaiting is Some
                &&& final(self).awaiting->Some_0@ == r->Ok_0@
            },
    {
        self.issued = self.issued + 1;
        if !self.open {
            return Err(ClientError::Write);
        }
        let mut id = String::from_str("req-");
        let digits = decimal_text(self.issued);
        id.append(digits.as_str());
        let key = id.clone();
        self.awaiting = Some(key);
        Ok(id)
    }

    /// Offers the `id` member of a reply to the waiting request. It is taken
    /// only where it is the string under which the request waits; then
    /// nothing waits any more. Otherwise the reply is dropped and the
    /// session stays as it was.
    pub fn accept(&mut self, id: &Field) -> (r: bool)
        requires
            old(self).wf(),
        ensures
            final(self).wf(),
            r == answers(old(self).awaiting, *id),
            r ==> final(self).awaiting is None && final(self).issued == old(self).issued
                && final(self).open == old(self).open,
            !r ==> *final(self) == *old(self),
    {
        let hit = match (&self.awaiting, id) {
            (Some(want), Field::Text(got)) => *want == *got,
            _ => false,
        };
        if hit {
            self.awaiting = None;
        }
        hit
    }

    /// One step of waiting for a reply: `reply` is what the reply channel
    /// gave, `None` where it is closed. A closed channel fails the wait.
    pub fn receive(&mut self, reply: Option<serde_json::Value>) -> (r: WaitStep)
        requires
            old(self).wf(),
        ensures
            final(self).wf(),
            final(self).issued == old(self).issued,
            final(self).open == old(self).open,
            reply is None ==> r == WaitStep::Fail(ClientError::Closed) && final(self).awaiting is None,
            reply is Some ==> (r is Done <==> answers(old(self).awaiting, field_of(reply->Some_0, "id"@))),
            r is Done ==> reply == Some(r->Done_0) && old(self).awaiting is Some
                && final(self).awaiting is None,
            r is Wait ==> *final(self) == *old(self),
            !(r is Fail) ==> reply is Some,
    {
        match reply {
            None => {
                self.awaiting = None;
                WaitStep::Fail(ClientError::Closed)
            },
            Some(v) => {
                let id = read_field(&v, "id");
                if self.accept(&id) {
                    WaitStep::Done(v)
                } else {
                    WaitStep::Wait
                }
            },
        }
    }

    /// Stops the session: no request waits any more and no command can be
    /// written. Stopping a stopped session changes nothing.
    pub fn stop(&mut self)
        requires
            old(self).wf(),
        ensures
            *final(self) == stopped(*old(self)),
            final(self).wf(),
            !old(self).open ==> *final(self) == *old(self),
    {
        self.awaiting = None;
        self.open = false;
    }
}

proof fn lemma_decimal_nonempty(n: nat)
    ensures
        decimal(n).len() >= 1,
        n >= 10 ==> decimal(n).len() >= 2,
    decreases n,
{
    if n >= 10 {
        lemma_decimal_nonempty(n / 10);
    }
}

/// Different numbers have different decimal texts.
pub proof fn lemma_decimal_injective(j: nat, k: nat)
    requires
        j != k,
    ensures
        decimal(j) != decimal(k),
    decreases j + k,
{
    lemma_decimal_nonempty(j);
    lemma_decimal_nonempty(k);
    if j >= 10 && k >= 10 {
        if decimal(j) == decimal(k) {
            assert(decimal(j).last() == digit(j % 10));
            assert(decimal(k).last() == digit(k % 10));
            assert(decimal(j).drop_last() =~= decimal(j / 10));
            assert(decimal(k).drop_last() =~= decimal(k / 10));
            if j / 10 != k / 10 {
                lemma_decimal_injective(j / 10, k / 10);
            }
            assert(j % 10 == k % 10);
            assert(false);
        }
    } else if j < 10 && k < 10 {
        assert(decimal(j)[0] == digit(j));
        assert(decimal(k)[0] == digit(k));
    }
}

/// Request identifiers are never reused: the requests of one session, taken
/// in turn, carry different identifiers.
pub proof fn lemma_request_ids_distinct(j: nat, k: nat)
    requires
        j != k,
    ensures
        request_id(j) != request_id(k),
{
    lemma_decimal_injective(j, k);
    reveal_strlit("req-");
    assert("req-"@.len() == 4);
    if request_id(j) == request_id(k) {
        assert(decimal(j) =~= request_id(j).subrange(4, request_id(j).len() as int));
        assert(decimal(k) =~= request_id(k).subrange(4, request_id(k).len() as int));
    }
}

/// With commands issued one after another on one session, the request that
/// waits under the identifier of the `k`-th command takes a reply that
/// carries the identifier of the `j`-th exactly when `j == k`: each reply
/// goes to its own command, and so replies come back in the order the
/// commands were issued.
pub proof fn lemma_reply_goes_to_its_request(k: nat, j: nat, awaiting: Option<String>, id: Field)
    requires
        awaiting is Some,
        awaiting->Some_0@ == request_id(k),
        id is Text,
        id->Text_0@ == request_id(j),
    ensures
        answers(awaiting, id) <==> j == k,
{
    if j != k {
        lemma_request_ids_distinct(j, k);
    }
}

/// A reply without an `id` member never ends a wait.
pub proof fn lemma_reply_without_id_is_dropped(awaiting: Option<String>, id: Field)
    requires
        id is Absent,
    ensures
        !answers(awaiting, id),
{
}

/// After a stop the session takes no command (`begin` fails with a write
/// error), and stopping it again changes nothing.
pub proof fn lemma_stop_is_final(s: Session)
    ensures
        !accepts_commands(stopped(s)),
        stopped(s).awaiting is None,
        stopped(stopped(s)) == stopped(s),
{
}

} // verus!
