//! Text-injection coordination: one "typed-so-far" cursor per session,
//! idempotent partial replacement and final commit, and graceful
//! degradation after an injection failure.
//!
//! Pressing the keys is outside work.  Each operation is therefore split
//! in two: a `*_plan` that says what to erase and type, and a `*_done`
//! that folds the outcome of performing the plan back into the session.

use vstd::prelude::*;
use vstd::string::StrSliceExecFns;

use crate::error::AppError;

verus! {

/// The session cursor as proofs see it.
pub ghost struct InjectionView {
    pub last_partial: Seq<char>,
    pub partial_allowed: bool,
}

/// Tracks what preview text is currently typed into the focused
/// application, and whether partial injection is still permitted.
#[derive(Debug)]
pub struct InjectionSession {
    last_partial: String,
    partial_allowed: bool,
}

impl View for InjectionSession {
    type V = InjectionView;

    closed spec fn view(&self) -> InjectionView {
        InjectionView { last_partial: self.last_partial@, partial_allowed: self.partial_allowed }
    }
}

/// A fresh cursor: nothing typed, partial injection permitted.
pub open spec fn fresh_session() -> InjectionView {
    InjectionView { last_partial: Seq::empty(), partial_allowed: true }
}

impl InjectionSession {
    pub fn new() -> (s: Self)
        ensures
            s@ == fresh_session(),
    {
        InjectionSession { last_partial: String::new(), partial_allowed: true }
    }

    pub fn reset(&mut self)
        ensures
            final(self)@ == fresh_session(),
    {
        self.last_partial = String::new();
        self.partial_allowed = true;
    }

    pub fn is_partial_allowed(&self) -> (r: bool)
        ensures
            r == self@.partial_allowed,
    {
        self.partial_allowed
    }

    pub fn mark_partial_denied(&mut self)
        ensures
            final(self)@.partial_allowed == false,
            final(self)@.last_partial == old(self)@.last_partial,
    {
        self.partial_allowed = false;
    }

    pub fn set_last_partial(&mut self, text: &str)
        ensures
            final(self)@.last_partial == text@,
            final(self)@.partial_allowed == old(self)@.partial_allowed,
    {
        self.last_partial = text.to_owned();
    }

    pub fn last_partial(&self) -> (r: &str)
        ensures
            r@ == self@.last_partial,
    {
        self.last_partial.as_str()
    }
}

/// What must be typed: erase exactly `erase_chars` characters (the length
/// of the preview typed so far), then type `text`.
pub struct InjectionPlan {
    pub erase_chars: usize,
    pub text: String,
}

/// How performing a plan went.  Erasing happens before typing, so a
/// failure reports which half gave up.
pub enum InjectOutcome {
    Done,
    EraseFailed(AppError),
    TypeFailed(AppError),
}

/// The cursor after a fully performed partial replacement.
pub open spec fn after_partial_ok(s: InjectionView, text: Seq<char>) -> InjectionView {
    InjectionView { last_partial: text, partial_allowed: s.partial_allowed }
}

/// The cursor after a failed partial replacement.  The flag latches to
/// false either way; the recorded text is gone only if the erase half
/// completed.
pub open spec fn after_partial_failed(s: InjectionView, erase_done: bool) -> InjectionView {
    InjectionView {
        last_partial: if erase_done {
            Seq::empty()
        } else {
            s.last_partial
        },
        partial_allowed: false,
    }
}

/// The number of characters a plan made from cursor `s` erases.
pub open spec fn erase_count(s: InjectionView) -> nat {
    s.last_partial.len()
}

pub struct Injector;

impl Injector {
    pub fn new() -> (i: Self) {
        Injector
    }

    /// The plan for replacing the on-screen preview with `text`, or
    /// nothing when partial injection has been disabled for this session.
    pub fn type_partial_replace_plan(&self, session: &InjectionSession, text: &str) -> (p: Option<
        InjectionPlan,
    >)
        ensures
            p is Some <==> session@.partial_allowed,
            p matches Some(pl) ==> pl.erase_chars == erase_count(session@) && pl.text@ == text@,
    {
        if !session.is_partial_allowed() {
            return None;
        }
        Some(
            InjectionPlan {
                erase_chars: session.last_partial().unicode_len(),
                text: text.to_owned(),
            },
        )
    }

    /// Folds the outcome of a partial-replacement plan into the session.
    pub fn type_partial_replace_done(
        &self,
        session: &mut InjectionSession,
        text: &str,
        outcome: InjectOutcome,
    ) -> (r: Result<(), AppError>)
        requires
            old(session)@.partial_allowed,
        ensures
            outcome is Done ==> final(session)@ == after_partial_ok(old(session)@, text@) && r
                is Ok,
            outcome matches InjectOutcome::EraseFailed(e) ==> final(session)@
                == after_partial_failed(old(session)@, false) && r == Err::<(), AppError>(e),
            outcome matches InjectOutcome::TypeFailed(e) ==> final(session)@
                == after_partial_failed(old(session)@, true) && r == Err::<(), AppError>(e),
    {
        match outcome {
            InjectOutcome::Done => {
                session.set_last_partial(text);
                Ok(())
            },
            InjectOutcome::EraseFailed(e) => {
                session.mark_partial_denied();
                Err(e)
            },
            InjectOutcome::TypeFailed(e) => {
                session.set_last_partial("");
                session.mark_partial_denied();
                proof {
                    reveal_strlit("");
                    assert(final(session)@.last_partial =~= Seq::<char>::empty());
                }
                Err(e)
            },
        }
    }

    /// The plan for the final commit: clear any outstanding preview, then
    /// type the final text.  Runs regardless of the partial flag.
    pub fn type_final_plan(&self, session: &InjectionSession, text: &str) -> (p: InjectionPlan)
        ensures
            p.erase_chars == erase_count(session@),
            p.text@ == text@,
    {
        InjectionPlan {
            erase_chars: session.last_partial().unicode_len(),
            text: text.to_owned(),
        }
    }

    /// Folds the outcome of a final-commit plan into the session.  On
    /// success the session is fully reset for a hypothetical next use.
    pub fn type_final_done(&self, session: &mut InjectionSession, outcome: InjectOutcome) -> (r:
        Result<(), AppError>)
        ensures
            outcome is Done ==> final(session)@ == fresh_session() && r is Ok,
            outcome matches InjectOutcome::EraseFailed(e) ==> final(session)@ == old(session)@ && r
                == Err::<(), AppError>(e),
            outcome matches InjectOutcome::TypeFailed(e) ==> final(session)@.last_partial
                == Seq::<char>::empty() && final(session)@.partial_allowed == old(
                session,
            )@.partial_allowed && r == Err::<(), AppError>(e),
    {
        match outcome {
            InjectOutcome::Done => {
                session.reset();
                Ok(())
            },
            InjectOutcome::EraseFailed(e) => Err(e),
            InjectOutcome::TypeFailed(e) => {
                session.set_last_partial("");
                proof {
                    reveal_strlit("");
                    assert(final(session)@.last_partial =~= Seq::<char>::empty());
                }
                Err(e)
            },
        }
    }
}

/// The usecase as proofs see it: the cursor plus the once-only error latch.
pub ghost struct UsecaseView {
    pub session: InjectionView,
    pub partial_degraded: bool,
}

/// A fresh usecase: fresh cursor, latch unarmed.
pub open spec fn fresh_usecase() -> UsecaseView {
    UsecaseView { session: fresh_session(), partial_degraded: false }
}

/// The usecase after a fully performed partial replacement.
pub open spec fn usecase_after_partial_ok(u: UsecaseView, text: Seq<char>) -> UsecaseView {
    UsecaseView { session: after_partial_ok(u.session, text), partial_degraded: u.partial_degraded }
}

/// The usecase after a failed partial replacement: the cursor degrades
/// and the error latch is armed.
pub open spec fn usecase_after_partial_failed(u: UsecaseView, erase_done: bool) -> UsecaseView {
    UsecaseView { session: after_partial_failed(u.session, erase_done), partial_degraded: true }
}

/// Owns the injector and the per-session cursor, and remembers whether a
/// partial-injection failure has already been reported to the user.
pub struct InjectionUsecase {
    injector: Injector,
    session: InjectionSession,
    partial_degraded: bool,
}

impl View for InjectionUsecase {
    type V = UsecaseView;

    closed spec fn view(&self) -> UsecaseView {
        UsecaseView { session: self.session@, partial_degraded: self.partial_degraded }
    }
}

impl InjectionUsecase {
    pub fn new() -> (u: Self)
        ensures
            u@ == fresh_usecase(),
    {
        InjectionUsecase {
            injector: Injector::new(),
            session: InjectionSession::new(),
            partial_degraded: false,
        }
    }

    /// Start of a recording: fresh cursor, latch unarmed.
    pub fn reset_session(&mut self)
        ensures
            final(self)@ == fresh_usecase(),
    {
        self.session.reset();
        self.partial_degraded = false;
    }

    /// Arms the once-only latch; true exactly on the first arming, so a
    /// degraded-mode error is reported at most once per session.
    pub fn mark_partial_degraded_once(&mut self) -> (first: bool)
        ensures
            final(self)@.partial_degraded,
            final(self)@.session == old(self)@.session,
            first == !old(self)@.partial_degraded,
    {
        if self.partial_degraded {
            return false;
        }
        self.partial_degraded = true;
        true
    }

    pub fn type_partial_replace_plan(&self, text: &str) -> (p: Option<InjectionPlan>)
        ensures
            p is Some <==> self@.session.partial_allowed,
            p matches Some(pl) ==> pl.erase_chars == erase_count(self@.session) && pl.text@
                == text@,
    {
        self.injector.type_partial_replace_plan(&self.session, text)
    }

    pub fn type_partial_replace_done(&mut self, text: &str, outcome: InjectOutcome) -> (r: Result<
        (),
        AppError,
    >)
        requires
            old(self)@.session.partial_allowed,
        ensures
            final(self)@.partial_degraded == old(self)@.partial_degraded,
            outcome is Done ==> final(self)@.session == after_partial_ok(
                old(self)@.session,
                text@,
            ) && r is Ok,
            outcome matches InjectOutcome::EraseFailed(e) ==> final(self)@.session
                == after_partial_failed(old(self)@.session, false) && r == Err::<(), AppError>(e),
            outcome matches InjectOutcome::TypeFailed(e) ==> final(self)@.session
                == after_partial_failed(old(self)@.session, true) && r == Err::<(), AppError>(e),
    {
        self.injector.type_partial_replace_done(&mut self.session, text, outcome)
    }

    pub fn type_final_plan(&self, text: &str) -> (p: InjectionPlan)
        ensures
            p.erase_chars == erase_count(self@.session),
            p.text@ == text@,
    {
        self.injector.type_final_plan(&self.session, text)
    }

    pub fn type_final_done(&mut self, outcome: InjectOutcome) -> (r: Result<(), AppError>)
        ensures
            final(self)@.partial_degraded == old(self)@.partial_degraded,
            outcome is Done ==> final(self)@.session == fresh_session() && r is Ok,
            outcome matches InjectOutcome::EraseFailed(e) ==> final(self)@.session == old(
                self,
            )@.session && r == Err::<(), AppError>(e),
            outcome matches InjectOutcome::TypeFailed(e) ==> final(self)@.session.last_partial
                == Seq::<char>::empty() && final(self)@.session.partial_allowed == old(
                self,
            )@.session.partial_allowed && r == Err::<(), AppError>(e),
    {
        self.injector.type_final_done(&mut self.session, outcome)
    }
}

/// Law: a partial replacement followed by a final commit never leaves both
/// texts visible — the commit's erase count is exactly the length of the
/// preview the replacement typed.
pub proof fn lemma_commit_erases_preview(s: InjectionView, text: Seq<char>)
    ensures
        erase_count(after_partial_ok(s, text)) == text.len(),
{
}

/// Law: the partial-allowed flag only ever latches from true to false.  A
/// successful replacement preserves it and any failed replacement clears
/// it; no partial operation re-enables it.
pub proof fn lemma_partial_flag_monotone(s: InjectionView, text: Seq<char>, erase_done: bool)
    ensures
        after_partial_ok(s, text).partial_allowed == s.partial_allowed,
        !after_partial_failed(s, erase_done).partial_allowed,
{
}

/// Law: once a partial injection has failed, the session permits no
/// further partial attempts, and the once-only report latch is armed —
/// so at most one degraded-mode error is ever reported per session.  A
/// successful replacement changes neither the permission nor the latch.
pub proof fn lemma_degraded_mode_is_permanent(u: UsecaseView, text: Seq<char>, erase_done: bool)
    ensures
        !usecase_after_partial_failed(u, erase_done).session.partial_allowed,
        usecase_after_partial_failed(u, erase_done).partial_degraded,
        usecase_after_partial_ok(u, text).session.partial_allowed == u.session.partial_allowed,
        usecase_after_partial_ok(u, text).partial_degraded == u.partial_degraded,
{
}

} // verus!
