//! One connection attempt as a state machine.
//!
//! The attempt decides; the caller performs. Each transition consumes the
//! outcome of the action the caller just performed and returns the next
//! action. Stages advance strictly in the order normalize, resolve, dial,
//! optional tune, then the combined upgrade-and-handshake; the first failure
//! is terminal.

use vstd::prelude::*;

use crate::error::ConnectError;
use crate::request::{RequestDescriptor, Scheme};
use crate::resolve::{address_text, dial_address, resolve, resolved_port, Endpoint};

verus! {

/// The stage an attempt has reached. `Failed` and `Complete` are terminal.
#[derive(Clone, Copy, Debug, PartialEq, Eq, Structural)]
pub enum Stage {
    Start,
    Normalized,
    Resolved,
    Dialed,
    Tuned,
    Complete,
    Failed,
}

/// Which kind of transport the attempt dials.
#[derive(Clone, Copy, Debug, PartialEq, Eq, Structural)]
pub enum TransportKind {
    /// A networked stream socket, dialed by an address text.
    Networked,
    /// A local inter-process stream socket, dialed by a filesystem path.
    Local,
}

/// What the caller must do next.
#[derive(Debug)]
pub enum Action {
    /// Dial the networked transport at this address text.
    DialNet { addr: String },
    /// Dial the local transport at this filesystem path.
    DialLocal { path: String },
    /// Disable send-coalescing delay on the freshly dialed channel.
    Tune,
    /// Perform the combined secure-channel upgrade and protocol handshake
    /// over the channel; `secure` says whether encryption is required, and
    /// `host` is the name to validate the certificate against.
    Handshake { host: String, secure: bool },
    /// The attempt succeeded; hand the stream and response to the caller.
    Finish,
    /// The attempt failed with this error; release everything.
    Abort { error: ConnectError },
}

/// The stages of a fully successful attempt, in order; with the optional
/// tuning stage when `tuned` holds.
pub open spec fn success_trace(tuned: bool) -> Seq<Stage> {
    if tuned {
        seq![Stage::Start, Stage::Normalized, Stage::Resolved, Stage::Dialed, Stage::Tuned,
            Stage::Complete]
    } else {
        seq![Stage::Start, Stage::Normalized, Stage::Resolved, Stage::Dialed, Stage::Complete]
    }
}

/// The histories an attempt that is still under way can have: every proper
/// stage prefix of a successful attempt.
pub open spec fn live_prefix(h: Seq<Stage>) -> bool {
    ||| h == seq![Stage::Start]
    ||| h == seq![Stage::Start, Stage::Normalized]
    ||| h == seq![Stage::Start, Stage::Normalized, Stage::Resolved]
    ||| h == seq![Stage::Start, Stage::Normalized, Stage::Resolved, Stage::Dialed]
    ||| h == seq![Stage::Start, Stage::Normalized, Stage::Resolved, Stage::Dialed, Stage::Tuned]
}

/// Every history an attempt can have: a live prefix, a full success, or a
/// live prefix cut short by one terminal failure.
pub open spec fn legal_history(h: Seq<Stage>) -> bool {
    ||| live_prefix(h)
    ||| h == success_trace(false)
    ||| h == success_trace(true)
    ||| (h.len() >= 2 && h.last() == Stage::Failed && live_prefix(h.drop_last()))
}

/// A legal history is pinned down by its last stage, except at the two ends
/// of an attempt's life.
proof fn lemma_history_by_last(h: Seq<Stage>)
    requires
        legal_history(h),
    ensures
        h.last() == Stage::Start ==> h == seq![Stage::Start],
        h.last() == Stage::Normalized ==> h == seq![Stage::Start, Stage::Normalized],
        h.last() == Stage::Resolved ==> h == seq![Stage::Start, Stage::Normalized, Stage::Resolved],
        h.last() == Stage::Dialed ==> h == seq![Stage::Start, Stage::Normalized, Stage::Resolved,
            Stage::Dialed],
        h.last() == Stage::Tuned ==> h == seq![Stage::Start, Stage::Normalized, Stage::Resolved,
            Stage::Dialed, Stage::Tuned],
        h.last() != Stage::Failed ==> live_prefix(h) || h == success_trace(false) || h
            == success_trace(true),
{
}

/// One in-flight connection attempt. It owns no transport: it only remembers
/// where the attempt stands and tells the caller what to do next.
pub struct Attempt {
    /// The stage the attempt has reached.
    pub stage: Stage,
    /// Networked or local transport.
    pub kind: TransportKind,
    /// The path to dial; present exactly for a local attempt.
    pub local_path: Option<String>,
    /// Whether send-coalescing delay is to be disabled after the dial.
    /// Meaningful only for the networked transport.
    pub disable_nagle: bool,
    /// The normalized request, once normalization has succeeded.
    pub descriptor: Option<RequestDescriptor>,
    /// The resolved endpoint, once resolution has succeeded on a networked
    /// attempt.
    pub endpoint: Option<Endpoint>,
    /// The terminal error, present exactly when the attempt has failed.
    pub failure: Option<ConnectError>,
    /// Whether a tuning outcome is the event awaited next.
    pub tune_pending: bool,
    /// The stages passed so far, in order.
    pub history: Ghost<Seq<Stage>>,
}

impl Attempt {
    /// The attempt's invariant: the history is a legal stage sequence ending
    /// at the current stage, and the fields agree with the stage.
    pub open spec fn wf(self) -> bool {
        &&& legal_history(self.history@)
        &&& self.history@.len() >= 1
        &&& self.history@.last() == self.stage
        &&& (self.kind == TransportKind::Local <==> self.local_path is Some)
        &&& (self.kind == TransportKind::Local ==> !self.disable_nagle)
        &&& (self.stage == Stage::Failed <==> self.failure is Some)
        &&& (self.tune_pending ==> self.stage == Stage::Dialed && self.kind
            == TransportKind::Networked && self.disable_nagle)
        &&& ((self.stage == Stage::Resolved || self.stage == Stage::Dialed || self.stage
            == Stage::Tuned || self.stage == Stage::Complete) ==> self.descriptor is Some)
    }

    /// Begin a networked attempt.
    pub fn new_networked(disable_nagle: bool) -> (a: Attempt)
        ensures
            a.wf(),
            a.stage == Stage::Start,
            a.kind == TransportKind::Networked,
            a.disable_nagle == disable_nagle,
            a.history@ == seq![Stage::Start],
    {
        Attempt {
            stage: Stage::Start,
            kind: TransportKind::Networked,
            local_path: None,
            disable_nagle,
            descriptor: None,
            endpoint: None,
            failure: None,
            tune_pending: false,
            history: Ghost(Seq::empty().push(Stage::Start)),
        }
    }

    /// Begin a local attempt that will dial the given filesystem path. The
    /// local transport has no coalescing delay to disable.
    pub fn new_local(path: String) -> (a: Attempt)
        ensures
            a.wf(),
            a.stage == Stage::Start,
            a.kind == TransportKind::Local,
            a.local_path matches Some(p) && p@ == path@,
            !a.disable_nagle,
            a.history@ == seq![Stage::Start],
    {
        Attempt {
            stage: Stage::Start,
            kind: TransportKind::Local,
            local_path: Some(path),
            disable_nagle: false,
            descriptor: None,
            endpoint: None,
            failure: None,
            tune_pending: false,
            history: Ghost(Seq::empty().push(Stage::Start)),
        }
    }

    /// Consume the normalization outcome; on success, resolve at once.
    ///
    /// A failed normalization fails the attempt before anything is dialed.
    /// On a networked attempt a successful normalization is followed by
    /// resolution: either the dial address is derived and the caller is told
    /// to dial it, or the attempt fails with the resolver's error and, again,
    /// nothing is ever dialed. A local attempt needs no port: the caller is
    /// told to dial the attempt's path.
    pub fn on_request(&mut self, outcome: Result<RequestDescriptor, ConnectError>) -> (act: Action)
        requires
            old(self).wf(),
            old(self).stage == Stage::Start,
        ensures
            final(self).wf(),
            final(self).kind == old(self).kind,
            final(self).disable_nagle == old(self).disable_nagle,
            final(self).local_path == old(self).local_path,
            match outcome {
                Err(e) => {
                    &&& final(self).stage == Stage::Failed
                    &&& final(self).failure == Some(e)
                    &&& act matches Action::Abort { error } && error == e
                    &&& final(self).history@ == old(self).history@ + seq![Stage::Failed]
                },
                Ok(d) => {
                    &&& final(self).descriptor matches Some(stored) && stored@ == d@
                    &&& if old(self).kind == TransportKind::Local {
                        &&& final(self).stage == Stage::Resolved
                        &&& (act matches Action::DialLocal { path } && path@ == old(
                            self,
                        ).local_path->0@)
                        &&& final(self).history@ == old(self).history@ + seq![Stage::Normalized,
                            Stage::Resolved]
                    } else if resolved_port(d@) is Some {
                        &&& final(self).stage == Stage::Resolved
                        &&& (final(self).endpoint matches Some(ep) && Some(ep.port)
                            == resolved_port(d@) && ep.host@ == d@.host)
                        &&& (act matches Action::DialNet { addr } && addr@ == address_text(
                            d@.host,
                            resolved_port(d@)->0,
                        ))
                        &&& final(self).history@ == old(self).history@ + seq![Stage::Normalized,
                            Stage::Resolved]
                    } else {
                        &&& final(self).stage == Stage::Failed
                        &&& final(self).failure == Some(ConnectError::UnsupportedScheme)
                        &&& (act matches Action::Abort { error } && error
                            == ConnectError::UnsupportedScheme)
                        &&& final(self).history@ == old(self).history@ + seq![Stage::Normalized,
                            Stage::Failed]
                    }
                },
            },
    {
        proof {
            lemma_history_by_last(self.history@);
        }
        match outcome {
            Err(e) => {
                self.stage = Stage::Failed;
                self.failure = Some(e);
                self.history = Ghost(self.history@.push(Stage::Failed));
                proof {
                    assert(self.history@ =~= seq![Stage::Start, Stage::Failed]);
                    assert(self.history@.drop_last() =~= seq![Stage::Start]);
                    assert(self.history@ =~= old(self).history@ + seq![Stage::Failed]);
                }
                Action::Abort { error: e }
            },
            Ok(d) => {
                match self.kind {
                    TransportKind::Local => {
                        let path: String = match &self.local_path {
                            Some(p) => p.clone(),
                            None => {
                                proof {
                                    assert(false);
                                }
                                String::new()
                            },
                        };
                        self.descriptor = Some(d);
                        self.stage = Stage::Resolved;
                        self.history = Ghost(
                            self.history@.push(Stage::Normalized).push(Stage::Resolved),
                        );
                        proof {
                            assert(self.history@ =~= seq![Stage::Start, Stage::Normalized,
                                Stage::Resolved]);
                            assert(self.history@ =~= old(self).history@ + seq![Stage::Normalized,
                                Stage::Resolved]);
                        }
                        Action::DialLocal { path }
                    },
                    TransportKind::Networked => {
                        match resolve(&d) {
                            Ok(ep) => {
                                let addr = dial_address(ep.host.as_str(), ep.port);
                                self.descriptor = Some(d);
                                self.endpoint = Some(ep);
                                self.stage = Stage::Resolved;
                                self.history = Ghost(
                                    self.history@.push(Stage::Normalized).push(Stage::Resolved),
                                );
                                proof {
                                    assert(self.history@ =~= seq![Stage::Start, Stage::Normalized,
                                        Stage::Resolved]);
                                    assert(self.history@ =~= old(self).history@ + seq![
                                        Stage::Normalized, Stage::Resolved]);
                                }
                                Action::DialNet { addr }
                            },
                            Err(e) => {
                                self.descriptor = Some(d);
                                self.stage = Stage::Failed;
                                self.failure = Some(e);
                                self.history = Ghost(
                                    self.history@.push(Stage::Normalized).push(Stage::Failed),
                                );
                                proof {
                                    assert(self.history@ =~= seq![Stage::Start, Stage::Normalized,
                                        Stage::Failed]);
                                    assert(self.history@.drop_last() =~= seq![Stage::Start,
                                        Stage::Normalized]);
                                    assert(self.history@ =~= old(self).history@ + seq![
                                        Stage::Normalized, Stage::Failed]);
                                }
                                Action::Abort { error: e }
                            },
                        }
                    },
                }
            },
        }
    }

    /// The host name the handshake validates against: the normalized host.
    fn handshake_host(&self) -> (h: String)
        requires
            self.descriptor is Some,
        ensures
            h@ == self.descriptor->0@.host,
    {
        match &self.descriptor {
            Some(d) => d.host.clone(),
            None => {
                proof {
                    assert(false);
                }
                String::new()
            },
        }
    }

    /// Whether the handshake must run over an encrypted channel: exactly when
    /// the normalized scheme is the secure one.
    pub open spec fn wants_secure(self) -> bool {
        self.descriptor->0@.scheme == Scheme::Secure
    }

    /// Consume the dial outcome.
    ///
    /// A failed dial fails the attempt as a transport error: the handshake
    /// collaborator is never invoked. After a successful dial, a networked
    /// attempt that asked for it is told to tune the channel first; every
    /// other attempt goes straight to the combined upgrade-and-handshake.
    /// A local attempt is never told to tune.
    pub fn on_dialed(&mut self, ok: bool) -> (act: Action)
        requires
            old(self).wf(),
            old(self).stage == Stage::Resolved,
        ensures
            final(self).wf(),
            final(self).kind == old(self).kind,
            final(self).descriptor == old(self).descriptor,
            !ok ==> {
                &&& final(self).stage == Stage::Failed
                &&& final(self).failure == Some(ConnectError::Transport)
                &&& (act matches Action::Abort { error } && error == ConnectError::Transport)
                &&& final(self).history@ == old(self).history@ + seq![Stage::Failed]
            },
            ok ==> {
                &&& final(self).stage == Stage::Dialed
                &&& final(self).history@ == old(self).history@ + seq![Stage::Dialed]
                &&& if old(self).kind == TransportKind::Networked && old(self).disable_nagle {
                    act matches Action::Tune && final(self).tune_pending
                } else {
                    &&& !final(self).tune_pending
                    &&& (act matches Action::Handshake { host, secure } && host@ == old(
                        self,
                    ).descriptor->0@.host && secure == old(self).wants_secure())
                }
            },
    {
        proof {
            lemma_history_by_last(self.history@);
        }
        if !ok {
            self.stage = Stage::Failed;
            self.failure = Some(ConnectError::Transport);
            self.history = Ghost(self.history@.push(Stage::Failed));
            proof {
                assert(self.history@.drop_last() =~= old(self).history@);
                assert(self.history@ =~= old(self).history@ + seq![Stage::Failed]);
            }
            return Action::Abort { error: ConnectError::Transport };
        }
        self.stage = Stage::Dialed;
        self.history = Ghost(self.history@.push(Stage::Dialed));
        proof {
            assert(self.history@ =~= seq![Stage::Start, Stage::Normalized, Stage::Resolved,
                Stage::Dialed]);
            assert(self.history@ =~= old(self).history@ + seq![Stage::Dialed]);
        }
        let networked = match self.kind {
            TransportKind::Networked => true,
            TransportKind::Local => false,
        };
        if networked && self.disable_nagle {
            self.tune_pending = true;
            Action::Tune
        } else {
            let host = self.handshake_host();
            let secure = match &self.descriptor {
                Some(d) => match d.scheme {
                    Scheme::Secure => true,
                    _ => false,
                },
                None => false,
            };
            Action::Handshake { host, secure }
        }
    }

    /// Consume the tuning outcome.
    ///
    /// A failed tuning is a hard failure: the attempt ends as a transport
    /// error and the handshake collaborator is never invoked. On success the
    /// caller is told to perform the combined upgrade-and-handshake.
    pub fn on_tuned(&mut self, ok: bool) -> (act: Action)
        requires
            old(self).wf(),
            old(self).stage == Stage::Dialed,
            old(self).tune_pending,
        ensures
            final(self).wf(),
            final(self).kind == old(self).kind,
            final(self).descriptor == old(self).descriptor,
            !final(self).tune_pending,
            !ok ==> {
                &&& final(self).stage == Stage::Failed
                &&& final(self).failure == Some(ConnectError::Transport)
                &&& (act matches Action::Abort { error } && error == ConnectError::Transport)
                &&& final(self).history@ == old(self).history@ + seq![Stage::Failed]
            },
            ok ==> {
                &&& final(self).stage == Stage::Tuned
                &&& (act matches Action::Handshake { host, secure } && host@ == old(
                    self,
                ).descriptor->0@.host && secure == old(self).wants_secure())
                &&& final(self).history@ == old(self).history@ + seq![Stage::Tuned]
            },
    {
        proof {
            lemma_history_by_last(self.history@);
        }
        self.tune_pending = false;
        if !ok {
            self.stage = Stage::Failed;
            self.failure = Some(ConnectError::Transport);
            self.history = Ghost(self.history@.push(Stage::Failed));
            proof {
                assert(self.history@.drop_last() =~= old(self).history@);
                assert(self.history@ =~= old(self).history@ + seq![Stage::Failed]);
            }
            return Action::Abort { error: ConnectError::Transport };
        }
        self.stage = Stage::Tuned;
        self.history = Ghost(self.history@.push(Stage::Tuned));
        proof {
            assert(self.history@ =~= seq![Stage::Start, Stage::Normalized, Stage::Resolved,
                Stage::Dialed, Stage::Tuned]);
            assert(self.history@ =~= old(self).history@ + seq![Stage::Tuned]);
        }
        let host = self.handshake_host();
        let secure = match &self.descriptor {
            Some(d) => match d.scheme {
                Scheme::Secure => true,
                _ => false,
            },
            None => false,
        };
        Action::Handshake { host, secure }
    }

    /// Consume the outcome of the combined upgrade-and-handshake.
    ///
    /// This is the last stage: success completes the attempt, and a failure
    /// past a successful dial is one of the three errors that stage can
    /// raise — transport, secure-channel, or handshake.
    pub fn on_handshake(&mut self, outcome: Result<(), ConnectError>) -> (act: Action)
        requires
            old(self).wf(),
            old(self).stage == Stage::Dialed && !old(self).tune_pending || old(self).stage
                == Stage::Tuned,
            outcome matches Err(e) ==> e == ConnectError::Transport || e
                == ConnectError::SecureChannel || e == ConnectError::Handshake,
        ensures
            final(self).wf(),
            final(self).kind == old(self).kind,
            final(self).descriptor == old(self).descriptor,
            match outcome {
                Ok(()) => {
                    &&& final(self).stage == Stage::Complete
                    &&& act matches Action::Finish
                    &&& final(self).history@ == old(self).history@ + seq![Stage::Complete]
                },
                Err(e) => {
                    &&& final(self).stage == Stage::Failed
                    &&& final(self).failure == Some(e)
                    &&& (act matches Action::Abort { error } && error == e)
                    &&& final(self).history@ == old(self).history@ + seq![Stage::Failed]
                },
            },
    {
        proof {
            lemma_history_by_last(self.history@);
        }
        match outcome {
            Ok(()) => {
                self.stage = Stage::Complete;
                self.history = Ghost(self.history@.push(Stage::Complete));
                proof {
                    if old(self).stage == Stage::Tuned {
                        assert(self.history@ =~= success_trace(true));
                    } else {
                        assert(self.history@ =~= success_trace(false));
                    }
                    assert(self.history@ =~= old(self).history@ + seq![Stage::Complete]);
                }
                Action::Finish
            },
            Err(e) => {
                self.stage = Stage::Failed;
                self.failure = Some(e);
                self.history = Ghost(self.history@.push(Stage::Failed));
                proof {
                    assert(self.history@.drop_last() =~= old(self).history@);
                    assert(self.history@ =~= old(self).history@ + seq![Stage::Failed]);
                }
                Action::Abort { error: e }
            },
        }
    }
}

/// Law: a completed attempt passed exactly the stages Start, Normalized,
/// Resolved, Dialed, optionally Tuned, and Complete — in that order, with
/// nothing else in between: every stage ran, each exactly once, none out of
/// order, and the attempt never failed along the way.
pub proof fn lemma_complete_stage_order(a: Attempt)
    requires
        a.wf(),
        a.stage == Stage::Complete,
    ensures
        a.history@ == success_trace(false) || a.history@ == success_trace(true),
{
    lemma_history_by_last(a.history@);
}

/// Law: a failed attempt never reached the Complete stage, and carries the
/// error of the stage that failed.
pub proof fn lemma_failure_excludes_completion(a: Attempt)
    requires
        a.wf(),
        a.stage == Stage::Failed,
    ensures
        a.failure is Some,
        !a.history@.contains(Stage::Complete),
{
    let h = a.history@;
    assert(h.last() == Stage::Failed);
    assert(h.len() >= 2 && live_prefix(h.drop_last()));
    assert forall|i: int| 0 <= i < h.len() implies h[i] != Stage::Complete by {
        if i == h.len() - 1 {
            assert(h[i] == Stage::Failed);
        } else {
            let p = h.drop_last();
            assert(p[i] == h[i]);
            assert(p.len() <= 5);
            assert(i == 0 || i == 1 || i == 2 || i == 3 || i == 4);
            assert(p[i] != Stage::Complete);
        }
    }
}

/// Law: no stage is ever entered twice. Together with
/// `lemma_complete_stage_order` this makes the ordering strict: every attempt
/// runs each stage at most once, never backwards, and stops at its first
/// terminal stage.
pub proof fn lemma_no_stage_repeats(a: Attempt)
    requires
        a.wf(),
    ensures
        forall|i: int, j: int| 0 <= i < j < a.history@.len() ==> a.history@[i] != a.history@[j],
{
    let h = a.history@;
    let p = h.drop_last();
    if h.len() >= 2 && h.last() == Stage::Failed && live_prefix(p) {
        assert(p.len() == h.len() - 1);
        assert(h.len() <= 6);
        assert forall|i: int, j: int| 0 <= i < j < h.len() implies h[i] != h[j] by {
            assert(i == 0 || i == 1 || i == 2 || i == 3 || i == 4);
            assert(j == 1 || j == 2 || j == 3 || j == 4 || j == 5);
            assert(h[i] == p[i]);
            if j == h.len() - 1 {
                assert(h[j] == Stage::Failed);
                assert(p[i] != Stage::Failed);
            } else {
                assert(h[j] == p[j]);
            }
        }
    } else {
        assert(h.len() <= 6);
        assert forall|i: int, j: int| 0 <= i < j < h.len() implies h[i] != h[j] by {
            assert(i == 0 || i == 1 || i == 2 || i == 3 || i == 4);
            assert(j == 1 || j == 2 || j == 3 || j == 4 || j == 5);
        }
    }
}

} // verus!
