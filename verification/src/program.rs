//! The public side of a session: who takes part and how far the session
//! has come.
//!
//! Each instruction is a decision: from the session's record and the
//! caller it yields the arguments of the computation to queue. A
//! submission that comes out of turn is queued like any other and leaves
//! the public record as it is; the confidential record answers it. Only a
//! caller who is not the first party, where the first party is asked for,
//! is refused. A callback that reports a failed computation undoes what
//! its instruction did to the public record.

use vstd::prelude::*;
use arcium_anchor::prelude::ArgumentList;
use crate::arguments::{
    contact_list_args,
    contact_list_arguments,
    list_arguments,
    placeholder_args,
    placeholder_arguments,
};
use crate::select::{both, select_bytes, select_u8};

verus! {

/// How far a session has come.
#[derive(Clone, Copy, Debug, PartialEq, Eq)]
pub enum SessionStatus {
    /// Created; the first party has yet to submit.
    AwaitingAlice,
    /// The first party has submitted; the second has yet to.
    AwaitingBob,
    /// The second party has submitted; the match is being computed.
    Computing,
    /// The lists have been matched.
    Matched,
}

impl SessionStatus {
    /// The byte under which the status is stored.
    pub open spec fn spec_code(self) -> u8 {
        match self {
            SessionStatus::AwaitingAlice => 0,
            SessionStatus::AwaitingBob => 1,
            SessionStatus::Computing => 2,
            SessionStatus::Matched => 3,
        }
    }

    /// The status that is stored under `code`, if any.
    pub open spec fn of_code(code: u8) -> Option<SessionStatus> {
        if code == 0 {
            Some(SessionStatus::AwaitingAlice)
        } else if code == 1 {
            Some(SessionStatus::AwaitingBob)
        } else if code == 2 {
            Some(SessionStatus::Computing)
        } else if code == 3 {
            Some(SessionStatus::Matched)
        } else {
            None
        }
    }

    /// The byte under which the status is stored.
    #[verifier::when_used_as_spec(spec_code)]
    pub fn code(self) -> (c: u8)
        ensures
            c == self.spec_code(),
    {
        match self {
            SessionStatus::AwaitingAlice => 0,
            SessionStatus::AwaitingBob => 1,
            SessionStatus::Computing => 2,
            SessionStatus::Matched => 3,
        }
    }
}

/// Why an instruction or a callback failed.
#[derive(Clone, Copy, Debug, PartialEq, Eq)]
pub enum ErrorCode {
    /// The computation was aborted or its output could not be verified.
    ComputationFailed,
    /// The caller is not the party that the instruction is for.
    Unauthorized,
}

impl ErrorCode {
    /// The message that goes with the error.
    pub fn message(&self) -> (text: String)
        ensures
            text@ == match *self {
                ErrorCode::ComputationFailed => "Computation failed"@,
                ErrorCode::Unauthorized => "Unauthorized"@,
            },
    {
        match self {
            ErrorCode::ComputationFailed => "Computation failed".to_owned(),
            ErrorCode::Unauthorized => "Unauthorized".to_owned(),
        }
    }
}

/// The public record of a session.
#[derive(Clone, Copy, Debug, PartialEq, Eq)]
pub struct DiscoverySession {
    /// Unique session identifier.
    pub session_id: [u8; 32],
    /// Key of the first party, who creates the session.
    pub alice: [u8; 32],
    /// Key of the second party, who joins it.
    pub bob: [u8; 32],
    /// Current status, as the byte of a [`SessionStatus`].
    pub status: u8,
    /// Bump seed of the record's address.
    pub bump: u8,
}

/// What a submission hands over for queueing.
#[derive(Debug)]
pub struct Queued {
    /// The arguments of the computation to queue.
    pub args: ArgumentList,
    /// Whether the submission advanced the public record. The callback of
    /// the computation is told, so that a failed computation undoes that
    /// advance and nothing else.
    pub advanced: bool,
}

/// The mathematical content of a [`DiscoverySession`].
#[verifier::ext_equal]
pub struct DiscoverySessionView {
    pub session_id: Seq<u8>,
    pub alice: Seq<u8>,
    pub bob: Seq<u8>,
    pub status: u8,
    pub bump: u8,
}

impl View for DiscoverySession {
    type V = DiscoverySessionView;

    open spec fn view(&self) -> DiscoverySessionView {
        DiscoverySessionView {
            session_id: self.session_id@,
            alice: self.alice@,
            bob: self.bob@,
            status: self.status,
            bump: self.bump,
        }
    }
}

/// The key that stands for "nobody": 32 zero bytes.
pub open spec fn no_key() -> Seq<u8> {
    Seq::new(32, |i: int| 0u8)
}

impl DiscoverySessionView {
    /// What holds of every record that the instructions produce: the
    /// status byte is one of the four, and nobody is second party before
    /// the second party has submitted.
    pub open spec fn wf(self) -> bool {
        &&& self.phase() is Some
        &&& self.session_id.len() == 32
        &&& self.alice.len() == 32
        &&& self.bob.len() == 32
        &&& (self.is_in(SessionStatus::AwaitingAlice) || self.is_in(SessionStatus::AwaitingBob))
            ==> self.bob == no_key()
    }

    /// How far the session has come, if the status byte is one of the four.
    pub open spec fn phase(self) -> Option<SessionStatus> {
        SessionStatus::of_code(self.status)
    }

    /// Whether the session is in `status`.
    pub open spec fn is_in(self, status: SessionStatus) -> bool {
        self.status == status.spec_code()
    }

    /// The record with its status set to `status`.
    pub open spec fn moved_to(self, status: SessionStatus) -> DiscoverySessionView {
        DiscoverySessionView { status: status.spec_code(), ..self }
    }

    /// The record of a session that `payer` has just created.
    pub open spec fn created(session_id: Seq<u8>, payer: Seq<u8>, bump: u8) -> DiscoverySessionView {
        DiscoverySessionView {
            session_id,
            alice: payer,
            bob: no_key(),
            status: SessionStatus::AwaitingAlice.spec_code(),
            bump,
        }
    }

    /// What the first party's submission does to the record. Only the
    /// party that created the session may make it. In a session that
    /// awaits the first party it leads on to awaiting the second; in any
    /// other it is admitted all the same and changes nothing.
    pub open spec fn submit_contacts_alice(self, signer: Seq<u8>) -> Result<
        DiscoverySessionView,
        ErrorCode,
    > {
        if signer != self.alice {
            Err(ErrorCode::Unauthorized)
        } else if self.is_in(SessionStatus::AwaitingAlice) {
            Ok(self.moved_to(SessionStatus::AwaitingBob))
        } else {
            Ok(self)
        }
    }

    /// What the second party's submission does to the record. In a session
    /// that awaits the second party, whoever makes it becomes the second
    /// party and the session is computing; in any other it is admitted all
    /// the same and changes nothing.
    pub open spec fn submit_and_match(self, signer: Seq<u8>) -> DiscoverySessionView {
        if self.is_in(SessionStatus::AwaitingBob) {
            DiscoverySessionView { bob: signer, ..self.moved_to(SessionStatus::Computing) }
        } else {
            self
        }
    }

    /// What the outcome of the first party's submission does to the
    /// record. A failed computation takes back the advance that the
    /// submission made, if it made one; nothing else changes the record.
    pub open spec fn submit_alice_callback(self, advanced: bool, verified: bool)
        -> DiscoverySessionView {
        if advanced && !verified && self.is_in(SessionStatus::AwaitingBob) {
            self.moved_to(SessionStatus::AwaitingAlice)
        } else {
            self
        }
    }

    /// What the outcome of the second party's submission does to the
    /// record, if that submission had advanced it and the session is still
    /// computing. A verified output completes the session; a failed
    /// computation takes the second party out again and lets the session
    /// await the second party as before. Nothing else changes the record.
    pub open spec fn submit_and_match_callback(self, advanced: bool, verified: bool)
        -> DiscoverySessionView {
        if advanced && self.is_in(SessionStatus::Computing) {
            if verified {
                self.moved_to(SessionStatus::Matched)
            } else {
                DiscoverySessionView { bob: no_key(), ..self.moved_to(SessionStatus::AwaitingBob) }
            }
        } else {
            self
        }
    }

    /// Whether a reveal is admitted: for the first party always, whatever
    /// the status, and for nobody else.
    pub open spec fn reveal_alice_matches(self, signer: Seq<u8>) -> Result<(), ErrorCode> {
        if signer != self.alice {
            Err(ErrorCode::Unauthorized)
        } else {
            Ok(())
        }
    }
}

/// What a callback makes of the outcome of its computation.
pub open spec fn callback_result(verified: bool) -> Result<(), ErrorCode> {
    if verified {
        Ok(())
    } else {
        Err(ErrorCode::ComputationFailed)
    }
}

impl DiscoverySession {
    /// Bytes that the stored record takes: an 8-byte tag, three 32-byte
    /// fields and two single bytes.
    pub const SIZE: usize = 8 + 32 + 32 + 32 + 1 + 1;
}

impl Default for DiscoverySession {
    fn default() -> (session: DiscoverySession)
        ensures
            session@ == (DiscoverySessionView {
                session_id: no_key(),
                alice: no_key(),
                bob: no_key(),
                status: 0,
                bump: 0,
            }),
    {
        let session = DiscoverySession {
            session_id: [0u8; 32],
            alice: [0u8; 32],
            bob: [0u8; 32],
            status: 0,
            bump: 0,
        };
        proof {
            assert(session@.session_id =~= no_key());
            assert(session@.alice =~= no_key());
            assert(session@.bob =~= no_key());
        }
        session
    }
}

/// Whether two keys are the same.
pub fn same_key(a: &[u8; 32], b: &[u8; 32]) -> (same: bool)
    ensures
        same == (a@ == b@),
{
    let mut same: bool = true;
    let mut i: usize = 0;
    while i < 32
        invariant
            i <= 32,
            same <==> forall|k: int| 0 <= k < i ==> a@[k] == b@[k],
        decreases 32 - i,
    {
        if a[i] != b[i] {
            same = false;
        }
        i = i + 1;
    }
    proof {
        if same {
            assert(a@ =~= b@);
        }
    }
    same
}

/// What a callback answers: nothing on a verified output, the failure of
/// the computation otherwise.
fn report(verified: bool) -> (r: Result<(), ErrorCode>)
    ensures
        r == callback_result(verified),
{
    if verified {
        Ok(())
    } else {
        Err(ErrorCode::ComputationFailed)
    }
}

/// Creates a session for `payer` and yields the arguments of the
/// computation that sets up its confidential record.
pub fn create_session(
    session: &mut DiscoverySession,
    payer: [u8; 32],
    bump: u8,
    session_id: [u8; 32],
    pubkey: [u8; 32],
    nonce: u128,
) -> (args: ArgumentList)
    ensures
        final(session)@ == DiscoverySessionView::created(session_id@, payer@, bump),
        final(session)@.wf(),
        list_arguments(args) == placeholder_arguments(pubkey@, nonce),
{
    session.session_id = session_id;
    session.alice = payer;
    session.bob = [0u8; 32];
    session.status = SessionStatus::AwaitingAlice.code();
    session.bump = bump;
    proof {
        assert(session@ =~= DiscoverySessionView::created(session_id@, payer@, bump));
    }
    placeholder_args(pubkey, nonce)
}

/// What follows the computation that set up the confidential record.
pub fn init_session_callback(verified: bool) -> (r: Result<(), ErrorCode>)
    ensures
        r == callback_result(verified),
{
    report(verified)
}

/// The first party submits its encrypted contact list. The submission is
/// queued whatever the status; it advances a session that awaits the first
/// party and leaves any other as it is.
pub fn submit_contacts_alice(
    session: &mut DiscoverySession,
    alice: [u8; 32],
    encrypted_hashes: &[[u8; 32]; 32],
    encrypted_count: [u8; 32],
    pubkey: [u8; 32],
    nonce: u128,
) -> (r: Result<Queued, ErrorCode>)
    ensures
        match r {
            Ok(queued) => {
                &&& old(session)@.submit_contacts_alice(alice@) == Ok::<
                    DiscoverySessionView,
                    ErrorCode,
                >(final(session)@)
                &&& queued.advanced == old(session)@.is_in(SessionStatus::AwaitingAlice)
                &&& list_arguments(queued.args) == contact_list_arguments(
                    pubkey@,
                    nonce,
                    encrypted_hashes@,
                    encrypted_count@,
                )
            },
            Err(e) => {
                &&& old(session)@.submit_contacts_alice(alice@) == Err::<
                    DiscoverySessionView,
                    ErrorCode,
                >(e)
                &&& *final(session) == *old(session)
            },
        },
{
    if !same_key(&alice, &session.alice) {
        return Err(ErrorCode::Unauthorized);
    }
    let advanced: bool = session.status == SessionStatus::AwaitingAlice.code();
    session.status = select_u8(advanced, SessionStatus::AwaitingBob.code(), session.status);
    proof {
        assert(session@ =~= old(session)@.submit_contacts_alice(alice@)->Ok_0);
    }
    Ok(Queued { args: contact_list_args(pubkey, nonce, encrypted_hashes, encrypted_count), advanced })
}

/// What follows the computation that was to store the first party's list.
/// `advanced` tells whether the submission had advanced the record. If the
/// computation failed, that advance is taken back, so that the record is
/// as it was before the submission.
pub fn submit_alice_callback(session: &mut DiscoverySession, advanced: bool, verified: bool) -> (r:
    Result<(), ErrorCode>)
    ensures
        r == callback_result(verified),
        final(session)@ == old(session)@.submit_alice_callback(advanced, verified),
{
    let undo: bool = both(
        both(advanced, !verified),
        session.status == SessionStatus::AwaitingBob.code(),
    );
    session.status = select_u8(undo, SessionStatus::AwaitingAlice.code(), session.status);
    proof {
        assert(session@ =~= old(session)@.submit_alice_callback(advanced, verified));
    }
    report(verified)
}

/// The second party submits its encrypted contact list. The submission is
/// queued whatever the status, so the comparison is always carried out; it
/// advances a session that awaits the second party and leaves any other as
/// it is.
pub fn submit_and_match(
    session: &mut DiscoverySession,
    bob: [u8; 32],
    encrypted_hashes: &[[u8; 32]; 32],
    encrypted_count: [u8; 32],
    pubkey: [u8; 32],
    nonce: u128,
) -> (r: Result<Queued, ErrorCode>)
    ensures
        r is Ok,
        r matches Ok(queued) ==> {
            &&& final(session)@ == old(session)@.submit_and_match(bob@)
            &&& queued.advanced == old(session)@.is_in(SessionStatus::AwaitingBob)
            &&& list_arguments(queued.args) == contact_list_arguments(
                pubkey@,
                nonce,
                encrypted_hashes@,
                encrypted_count@,
            )
        },
{
    let advanced: bool = session.status == SessionStatus::AwaitingBob.code();
    session.bob = select_bytes(advanced, &bob, &session.bob);
    session.status = select_u8(advanced, SessionStatus::Computing.code(), session.status);
    proof {
        assert(session@ =~= old(session)@.submit_and_match(bob@));
    }
    Ok(Queued { args: contact_list_args(pubkey, nonce, encrypted_hashes, encrypted_count), advanced })
}

/// What follows the match. `advanced` tells whether the submission had
/// advanced the record. If it had, a verified output completes the
/// session, and a failed computation takes the advance back, so that the
/// record is as it was before the submission.
pub fn submit_and_match_callback(
    session: &mut DiscoverySession,
    advanced: bool,
    verified: bool,
) -> (r: Result<(), ErrorCode>)
    ensures
        r == callback_result(verified),
        final(session)@ == old(session)@.submit_and_match_callback(advanced, verified),
{
    let nobody: [u8; 32] = [0u8; 32];
    let concerned: bool = both(advanced, session.status == SessionStatus::Computing.code());
    let undo: bool = both(concerned, !verified);
    let outcome: u8 = select_u8(
        verified,
        SessionStatus::Matched.code(),
        SessionStatus::AwaitingBob.code(),
    );
    session.bob = select_bytes(undo, &nobody, &session.bob);
    session.status = select_u8(concerned, outcome, session.status);
    proof {
        assert(nobody@ =~= no_key());
        assert(session@ =~= old(session)@.submit_and_match_callback(advanced, verified));
    }
    report(verified)
}

/// The first party asks for its side of the intersection. The request is
/// queued whatever the status; before the lists have been matched the
/// confidential record answers it with the empty view.
pub fn reveal_alice_matches(
    session: &DiscoverySession,
    alice: [u8; 32],
    pubkey: [u8; 32],
    nonce: u128,
) -> (r: Result<ArgumentList, ErrorCode>)
    ensures
        match r {
            Ok(args) => {
                &&& session@.reveal_alice_matches(alice@) is Ok
                &&& list_arguments(args) == placeholder_arguments(pubkey@, nonce)
            },
            Err(e) => session@.reveal_alice_matches(alice@) == Err::<(), ErrorCode>(e),
        },
{
    if !same_key(&alice, &session.alice) {
        return Err(ErrorCode::Unauthorized);
    }
    Ok(placeholder_args(pubkey, nonce))
}

/// What follows the computation that revealed the first party's matches.
pub fn reveal_alice_callback(verified: bool) -> (r: Result<(), ErrorCode>)
    ensures
        r == callback_result(verified),
{
    report(verified)
}

/// Each status has a byte of its own.
pub proof fn lemma_status_codes(status: SessionStatus)
    ensures
        SessionStatus::of_code(status.spec_code()) == Some(status),
        status.spec_code() <= 3,
{
}

/// A session runs in order. The status moves forward one step at a time:
/// by the first party's submission from awaiting the first party, by the
/// second party's from awaiting the second, and by the verified outcome of
/// the match from computing. It moves back only by one step, and only when
/// a computation has failed whose submission had advanced it. No step
/// changes the identifier, the first party or the bump seed, and the
/// second party is set and taken out together with the status of
/// computing.
pub proof fn lemma_session_runs_in_order(
    s: DiscoverySessionView,
    signer: Seq<u8>,
    advanced: bool,
    verified: bool,
)
    ensures
        s.submit_contacts_alice(signer) matches Ok(t) ==> signer == s.alice && (t == s || (s.is_in(
            SessionStatus::AwaitingAlice,
        ) && t == s.moved_to(SessionStatus::AwaitingBob))),
        ({
            let t = s.submit_and_match(signer);
            t == s || (s.is_in(SessionStatus::AwaitingBob) && t == (DiscoverySessionView {
                bob: signer,
                ..s.moved_to(SessionStatus::Computing)
            }))
        }),
        ({
            let t = s.submit_alice_callback(advanced, verified);
            t == s || (advanced && !verified && s.is_in(SessionStatus::AwaitingBob) && t
                == s.moved_to(SessionStatus::AwaitingAlice))
        }),
        ({
            let t = s.submit_and_match_callback(advanced, verified);
            ||| t == s
            ||| advanced && verified && s.is_in(SessionStatus::Computing) && t == s.moved_to(
                SessionStatus::Matched,
            )
            ||| advanced && !verified && s.is_in(SessionStatus::Computing) && t == (
            DiscoverySessionView { bob: no_key(), ..s.moved_to(SessionStatus::AwaitingBob) })
        }),
{
}

/// A submission out of turn is admitted and changes nothing: the first
/// party's in a session that does not await the first party, and anybody's
/// as second party in a session that does not await the second.
pub proof fn lemma_submission_out_of_turn_changes_nothing(s: DiscoverySessionView, signer: Seq<u8>)
    ensures
        !s.is_in(SessionStatus::AwaitingAlice) && signer == s.alice ==> s.submit_contacts_alice(
            signer,
        ) == Ok::<DiscoverySessionView, ErrorCode>(s),
        !s.is_in(SessionStatus::AwaitingBob) ==> s.submit_and_match(signer) == s,
{
}

/// A failed computation leaves the record as it was before the submission:
/// the callback that is told what the submission did undoes exactly that.
pub proof fn lemma_failed_step_is_undone(s: DiscoverySessionView, signer: Seq<u8>)
    requires
        s.wf(),
    ensures
        s.submit_contacts_alice(signer) matches Ok(t) ==> t.submit_alice_callback(
            s.is_in(SessionStatus::AwaitingAlice),
            false,
        ) == s,
        s.submit_and_match(signer).submit_and_match_callback(
            s.is_in(SessionStatus::AwaitingBob),
            false,
        ) == s,
{
}

/// A verified computation confirms what the submission did: the first
/// party's submission stays as it is, and the second party's, if it had
/// advanced the session, completes it.
pub proof fn lemma_verified_step_stays(s: DiscoverySessionView, signer: Seq<u8>)
    ensures
        s.submit_contacts_alice(signer) matches Ok(t) ==> t.submit_alice_callback(
            s.is_in(SessionStatus::AwaitingAlice),
            true,
        ) == t,
        s.is_in(SessionStatus::AwaitingBob) ==> s.submit_and_match(
            signer,
        ).submit_and_match_callback(true, true) == (DiscoverySessionView {
            bob: signer,
            ..s.moved_to(SessionStatus::Matched)
        }),
        !s.is_in(SessionStatus::AwaitingBob) ==> s.submit_and_match(
            signer,
        ).submit_and_match_callback(false, true) == s,
{
}

/// The instructions and callbacks keep the record well formed.
pub proof fn lemma_record_stays_wf(
    s: DiscoverySessionView,
    signer: Seq<u8>,
    advanced: bool,
    verified: bool,
)
    requires
        s.wf(),
        signer.len() == 32,
    ensures
        s.submit_contacts_alice(signer) matches Ok(t) ==> t.wf(),
        s.submit_and_match(signer).wf(),
        s.submit_alice_callback(advanced, verified).wf(),
        s.submit_and_match_callback(advanced, verified).wf(),
{
}

/// A matched session is final: whatever is submitted or reported, the
/// record stays as it is.
pub proof fn lemma_matched_session_is_final(
    s: DiscoverySessionView,
    signer: Seq<u8>,
    advanced: bool,
    verified: bool,
)
    requires
        s.is_in(SessionStatus::Matched),
    ensures
        s.submit_contacts_alice(signer) matches Ok(t) ==> t == s,
        s.submit_and_match(signer) == s,
        s.submit_alice_callback(advanced, verified) == s,
        s.submit_and_match_callback(advanced, verified) == s,
{
}

} // verus!
