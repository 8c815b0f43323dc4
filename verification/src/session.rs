use vstd::prelude::*;
use crate::handler::Handler;
use crate::protocol::{
    invalid_params_text, invalid_params_message, method_not_found_text, method_not_found_message,
    unknown_selector_text, unknown_selector_message, Message, MessageFactory, Outcome, Params,
    Request, Response, ResponseError, INTERNAL_ERROR_CODE, INVALID_PARAMS_CODE,
    METHOD_NOT_FOUND_CODE,
};
use crate::registry::{DispatchError, Registry};
use vstd::string::StringExecFns;

verus! {

/// How the session ended.
#[derive(Clone, Copy, PartialEq, Eq, Structural, Debug)]
pub enum ExitStatus {
    /// Clean termination: peer disconnect or a `"shutdown"` notification.
    Success,
    /// A transport I/O fault or a handshake protocol violation.
    Failure,
}

/// Where the session stands.
#[derive(Clone, Copy, PartialEq, Eq, Structural, Debug)]
pub enum SessionState {
    /// The `"ready"` request is out; waiting for exactly one message.
    Handshaking {
        /// The id the answering response must echo.
        ready_id: u64,
    },
    /// The invoke loop: one message read, at most one response pushed back.
    Serving,
    /// The loop is over; the process should exit with `status`.
    Terminated {
        /// Success unless a fatal fault ended the session.
        status: ExitStatus,
    },
}

/// What one blocking read of the transport produced, as the surrounding
/// runtime reports it: structural line and message decoding happen outside
/// this core, content decisions in it.
#[derive(Debug)]
pub enum TransportEvent {
    /// A zero-length read: the peer closed the connection.
    Closed,
    /// The read itself failed at the byte level; the text describes the
    /// fault.
    ReadFault(String),
    /// The line read did not decode as a protocol message; the text
    /// describes the mismatch.
    BadLine(String),
    /// A well-formed protocol message.
    Received(Message),
}

/// The session's verdict when a step ends the loop.
#[derive(Debug)]
pub struct Exit {
    /// The process exit status.
    pub status: ExitStatus,
    /// Diagnostic text for the operator-visible error channel.
    pub diagnostic: Option<String>,
}

/// Everything one step of the session asks the surrounding runtime to do.
#[derive(Debug)]
pub struct StepResult {
    /// A message to push back through the transport, if any.
    pub reply: Option<Message>,
    /// A non-fatal note for the operator-visible channel, if any.
    pub warning: Option<String>,
    /// Present exactly when the loop is over.
    pub exit: Option<Exit>,
}

/// The session state machine: drives the handshake, the invoke loop and
/// termination. The surrounding runtime owns the transport and feeds each
/// read back in as a [`TransportEvent`]; every decision lives here.
pub struct Session<H> {
    registry: Registry<H>,
    mf: MessageFactory,
    state: SessionState,
}

impl<H: Handler> Session<H> {
    /// The current state.
    pub closed spec fn spec_state(self) -> SessionState {
        self.state
    }

    /// The registry the session serves from.
    pub closed spec fn spec_registry(self) -> Registry<H> {
        self.registry
    }

    /// The registry never holds two handlers for one selector.
    pub open spec fn wf(self) -> bool {
        self.spec_registry().wf()
    }

    /// Opens a session over `registry`: hands back the session, already
    /// Handshaking, together with the `"ready"` request to push through the
    /// transport before the first read.
    pub fn new(registry: Registry<H>) -> (r: (Session<H>, Message))
        requires
            registry.wf(),
        ensures
            r.0.wf(),
            r.0.spec_registry() == registry,
            r.1 matches Message::Request(req) && req.method@ == "ready"@ && req.params is Null
                && r.0.spec_state() == (SessionState::Handshaking { ready_id: req.id }),
    {
        let mut mf = MessageFactory::new();
        let ready = mf.request(String::from_str("ready"), Params::Null);
        let id = match &ready {
            Message::Request(req) => req.id,
            _ => 0,
        };
        let s = Session { registry, mf, state: SessionState::Handshaking { ready_id: id } };
        (s, ready)
    }

    /// The current state, readable from outside the proof world.
    pub fn state(&self) -> (r: SessionState)
        ensures
            r == self.spec_state(),
    {
        self.state
    }

    /// Feeds one transport event through the state machine.
    ///
    /// While Handshaking, the one message owed is a response echoing the
    /// `"ready"` id: peer closure is a clean end, anything else is a fatal
    /// protocol violation. While Serving, a well-formed `"invoke"` request
    /// is dispatched and answered with exactly one response echoing its id;
    /// a `"shutdown"` notification or peer closure ends the loop cleanly;
    /// an undecodable line is skipped with a warning; only a byte-level
    /// read fault is fatal.
    pub fn step(&mut self, ev: TransportEvent) -> (r: StepResult)
        requires
            old(self).wf(),
            !(old(self).spec_state() is Terminated),
        ensures
            final(self).wf(),
            r.exit is Some <==> final(self).spec_state() is Terminated,
            (r.exit matches Some(e) ==> final(self).spec_state() == (SessionState::Terminated {
                status: e.status,
            })),
            (old(self).spec_state() matches SessionState::Handshaking { ready_id } ==> {
                &&& final(self).spec_registry() == old(self).spec_registry()
                &&& r.reply is None
                &&& (match ev {
                    TransportEvent::Closed => {
                        &&& final(self).spec_state() == (SessionState::Terminated {
                            status: ExitStatus::Success,
                        })
                        &&& (r.exit matches Some(e) && e.status is Success)
                    },
                    TransportEvent::ReadFault(d) => {
                        &&& final(self).spec_state() == (SessionState::Terminated {
                            status: ExitStatus::Failure,
                        })
                        &&& (r.exit matches Some(e) && e.status is Failure && (
                        e.diagnostic matches Some(t) && t@ == d@))
                    },
                    TransportEvent::BadLine(d) => {
                        &&& final(self).spec_state() == (SessionState::Terminated {
                            status: ExitStatus::Failure,
                        })
                        &&& (r.exit matches Some(e) && e.status is Failure && (
                        e.diagnostic matches Some(t) && t@ == d@))
                    },
                    TransportEvent::Received(m) => (match m {
                        Message::Response(resp) => {
                            if resp.id == ready_id {
                                &&& final(self).spec_state() is Serving
                                &&& r.exit is None
                                &&& r.warning is None
                            } else {
                                &&& final(self).spec_state() == (SessionState::Terminated {
                                    status: ExitStatus::Failure,
                                })
                                &&& (r.exit matches Some(e) && e.status is Failure
                                    && e.diagnostic is Some)
                            }
                        },
                        _ => {
                            &&& final(self).spec_state() == (SessionState::Terminated {
                                status: ExitStatus::Failure,
                            })
                            &&& (r.exit matches Some(e) && e.status is Failure
                                && e.diagnostic is Some)
                        },
                    }),
                })
            }),
            (old(self).spec_state() is Serving ==> (match ev {
                TransportEvent::Closed => {
                    &&& final(self).spec_state() == (SessionState::Terminated {
                        status: ExitStatus::Success,
                    })
                    &&& final(self).spec_registry() == old(self).spec_registry()
                    &&& r.reply is None
                    &&& (r.exit matches Some(e) && e.status is Success)
                    &&& (r.warning matches Some(w) && w@
                        == "client disconnected without sending a shutdown notification"@)
                },
                TransportEvent::ReadFault(d) => {
                    &&& final(self).spec_state() == (SessionState::Terminated {
                        status: ExitStatus::Failure,
                    })
                    &&& final(self).spec_registry() == old(self).spec_registry()
                    &&& r.reply is None
                    &&& (r.exit matches Some(e) && e.status is Failure && (
                    e.diagnostic matches Some(t) && t@ == d@))
                },
                TransportEvent::BadLine(d) => {
                    &&& final(self).spec_state() is Serving
                    &&& final(self).spec_registry() == old(self).spec_registry()
                    &&& r.reply is None
                    &&& r.exit is None
                    &&& (r.warning matches Some(w) && w@ == d@)
                },
                TransportEvent::Received(m) => (match m {
                    Message::Notification(n) => {
                        &&& final(self).spec_registry() == old(self).spec_registry()
                        &&& r.reply is None
                        &&& r.warning is None
                        &&& (if n.method@ == "shutdown"@ {
                            &&& final(self).spec_state() == (SessionState::Terminated {
                                status: ExitStatus::Success,
                            })
                            &&& (r.exit matches Some(e) && e.status is Success)
                        } else {
                            &&& final(self).spec_state() is Serving
                            &&& r.exit is None
                        })
                    },
                    Message::Response(_) => {
                        &&& final(self).spec_state() is Serving
                        &&& final(self).spec_registry() == old(self).spec_registry()
                        &&& r.reply is None
                        &&& r.warning is None
                        &&& r.exit is None
                    },
                    Message::Request(req) => {
                        &&& final(self).spec_state() is Serving
                        &&& r.exit is None
                        &&& r.warning is None
                        &&& (if req.method@ != "invoke"@ {
                            &&& final(self).spec_registry() == old(self).spec_registry()
                            &&& (r.reply matches Some(m2) && m2 matches Message::Response(resp)
                                && resp.id == req.id && (resp.outcome matches Outcome::Failure(e)
                                && e.code == METHOD_NOT_FOUND_CODE && e.message@
                                == method_not_found_text(req.method@)))
                        } else {
                            match req.params {
                                Params::Invoke(ip) => (match old(self).spec_registry().spec_get(
                                    ip.selector@,
                                ) {
                                    None => {
                                        &&& final(self).spec_registry() == old(self).spec_registry()
                                        &&& (r.reply matches Some(m2) && m2
                                            matches Message::Response(resp) && resp.id == req.id
                                            && (resp.outcome matches Outcome::Failure(e) && e.code
                                            == INVALID_PARAMS_CODE && e.message@
                                            == unknown_selector_text(
                                            ip.selector@,
                                            old(self).spec_registry().selectors(),
                                        )))
                                    },
                                    Some(h) => {
                                        &&& final(self).spec_registry().spec_get(ip.selector@)
                                            == Some(h.next_state(ip.calldata@))
                                        &&& forall|s: Seq<char>|
                                            s != ip.selector@ ==> final(self).spec_registry().spec_get(s) == old(self).spec_registry().spec_get(s)
                                        &&& final(self).spec_registry().selectors() == old(self).spec_registry().selectors()
                                        &&& (h.decodes(ip.calldata@) && h.succeeds(ip.calldata@)
                                            ==> (r.reply matches Some(m2) && m2
                                            matches Message::Response(resp) && resp.id == req.id
                                            && (resp.outcome matches Outcome::Output(v) && v@
                                            == h.result_of(ip.calldata@))))
                                        &&& (!(h.decodes(ip.calldata@) && h.succeeds(
                                            ip.calldata@,
                                        )) ==> (r.reply matches Some(m2) && m2
                                            matches Message::Response(resp) && resp.id == req.id
                                            && (resp.outcome matches Outcome::Failure(e) && e.code
                                            == INTERNAL_ERROR_CODE)))
                                    },
                                }),
                                Params::Null => {
                                    &&& final(self).spec_registry() == old(self).spec_registry()
                                    &&& (r.reply matches Some(m2) && m2 matches Message::Response(
                                        resp,
                                    ) && resp.id == req.id && (resp.outcome
                                        matches Outcome::Failure(e) && e.code
                                        == INVALID_PARAMS_CODE))
                                },
                                Params::Opaque(d) => {
                                    &&& final(self).spec_registry() == old(self).spec_registry()
                                    &&& (r.reply matches Some(m2) && m2 matches Message::Response(
                                        resp,
                                    ) && resp.id == req.id && (resp.outcome
                                        matches Outcome::Failure(e) && e.code
                                        == INVALID_PARAMS_CODE && e.message@
                                        == invalid_params_text(d@)))
                                },
                            }
                        })
                    },
                }),
            })),
    {
        match self.state {
            SessionState::Terminated { .. } => vstd::pervasive::unreached(),
            SessionState::Handshaking { ready_id } => match ev {
                TransportEvent::Closed => {
                    self.state = SessionState::Terminated { status: ExitStatus::Success };
                    StepResult {
                        reply: None,
                        warning: None,
                        exit: Some(Exit { status: ExitStatus::Success, diagnostic: None }),
                    }
                },
                TransportEvent::ReadFault(d) => {
                    self.state = SessionState::Terminated { status: ExitStatus::Failure };
                    StepResult {
                        reply: None,
                        warning: None,
                        exit: Some(Exit { status: ExitStatus::Failure, diagnostic: Some(d) }),
                    }
                },
                TransportEvent::BadLine(d) => {
                    self.state = SessionState::Terminated { status: ExitStatus::Failure };
                    StepResult {
                        reply: None,
                        warning: None,
                        exit: Some(Exit { status: ExitStatus::Failure, diagnostic: Some(d) }),
                    }
                },
                TransportEvent::Received(m) => match m {
                    Message::Response(resp) => {
                        if resp.id == ready_id {
                            // Any payload on this response is ignored, for
                            // forward compatibility.
                            self.state = SessionState::Serving;
                            StepResult { reply: None, warning: None, exit: None }
                        } else {
                            self.state = SessionState::Terminated {
                                status: ExitStatus::Failure,
                            };
                            StepResult {
                                reply: None,
                                warning: None,
                                exit: Some(
                                    Exit {
                                        status: ExitStatus::Failure,
                                        diagnostic: Some(
                                            String::from_str("unexpected ready response id"),
                                        ),
                                    },
                                ),
                            }
                        }
                    },
                    _ => {
                        self.state = SessionState::Terminated { status: ExitStatus::Failure };
                        StepResult {
                            reply: None,
                            warning: None,
                            exit: Some(
                                Exit {
                                    status: ExitStatus::Failure,
                                    diagnostic: Some(
                                        String::from_str(
                                            "expected a response to the ready request",
                                        ),
                                    ),
                                },
                            ),
                        }
                    },
                },
            },
            SessionState::Serving => match ev {
                TransportEvent::Closed => {
                    self.state = SessionState::Terminated { status: ExitStatus::Success };
                    StepResult {
                        reply: None,
                        warning: Some(
                            String::from_str(
                                "client disconnected without sending a shutdown notification",
                            ),
                        ),
                        exit: Some(Exit { status: ExitStatus::Success, diagnostic: None }),
                    }
                },
                TransportEvent::ReadFault(d) => {
                    self.state = SessionState::Terminated { status: ExitStatus::Failure };
                    StepResult {
                        reply: None,
                        warning: None,
                        exit: Some(Exit { status: ExitStatus::Failure, diagnostic: Some(d) }),
                    }
                },
                TransportEvent::BadLine(d) => StepResult {
                    reply: None,
                    warning: Some(d),
                    exit: None,
                },
                TransportEvent::Received(m) => match m {
                    Message::Notification(n) => {
                        if n.method == String::from_str("shutdown") {
                            self.state = SessionState::Terminated {
                                status: ExitStatus::Success,
                            };
                            StepResult {
                                reply: None,
                                warning: None,
                                exit: Some(
                                    Exit { status: ExitStatus::Success, diagnostic: None },
                                ),
                            }
                        } else {
                            // An unknown notification is ignored.
                            StepResult { reply: None, warning: None, exit: None }
                        }
                    },
                    Message::Response(_) => {
                        // An unsolicited response is ignored: this side
                        // tracks no outstanding requests after the
                        // handshake.
                        StepResult { reply: None, warning: None, exit: None }
                    },
                    Message::Request(req) => {
                        let reply = self.answer_request(req);
                        StepResult { reply: Some(reply), warning: None, exit: None }
                    },
                },
            },
        }
    }

    /// Answers one inbound request while Serving: dispatches `"invoke"`,
    /// rejects anything else, always echoing the request's id.
    fn answer_request(&mut self, req: Request) -> (reply: Message)
        requires
            old(self).wf(),
        ensures
            final(self).wf(),
            final(self).spec_state() == old(self).spec_state(),
            (if req.method@ != "invoke"@ {
                &&& final(self).spec_registry() == old(self).spec_registry()
                &&& (reply matches Message::Response(resp) && resp.id == req.id && (resp.outcome
                    matches Outcome::Failure(e) && e.code == METHOD_NOT_FOUND_CODE && e.message@
                    == method_not_found_text(req.method@)))
            } else {
                match req.params {
                    Params::Invoke(ip) => (match old(self).spec_registry().spec_get(
                        ip.selector@,
                    ) {
                        None => {
                            &&& final(self).spec_registry() == old(self).spec_registry()
                            &&& (reply matches Message::Response(resp) && resp.id == req.id && (
                            resp.outcome matches Outcome::Failure(e) && e.code
                                == INVALID_PARAMS_CODE && e.message@ == unknown_selector_text(
                                ip.selector@,
                                old(self).spec_registry().selectors(),
                            )))
                        },
                        Some(h) => {
                            &&& final(self).spec_registry().spec_get(ip.selector@) == Some(
                                h.next_state(ip.calldata@),
                            )
                            &&& forall|s: Seq<char>|
                                s != ip.selector@ ==> final(self).spec_registry().spec_get(s)
                                    == old(self).spec_registry().spec_get(s)
                            &&& final(self).spec_registry().selectors() == old(self).spec_registry().selectors()
                            &&& (h.decodes(ip.calldata@) && h.succeeds(ip.calldata@) ==> (
                            reply matches Message::Response(resp) && resp.id == req.id && (
                            resp.outcome matches Outcome::Output(v) && v@ == h.result_of(
                                ip.calldata@,
                            ))))
                            &&& (!(h.decodes(ip.calldata@) && h.succeeds(ip.calldata@)) ==> (
                            reply matches Message::Response(resp) && resp.id == req.id && (
                            resp.outcome matches Outcome::Failure(e) && e.code
                                == INTERNAL_ERROR_CODE)))
                        },
                    }),
                    Params::Null => {
                        &&& final(self).spec_registry() == old(self).spec_registry()
                        &&& (reply matches Message::Response(resp) && resp.id == req.id && (
                        resp.outcome matches Outcome::Failure(e) && e.code
                            == INVALID_PARAMS_CODE))
                    },
                    Params::Opaque(d) => {
                        &&& final(self).spec_registry() == old(self).spec_registry()
                        &&& (reply matches Message::Response(resp) && resp.id == req.id && (
                        resp.outcome matches Outcome::Failure(e) && e.code == INVALID_PARAMS_CODE
                            && e.message@ == invalid_params_text(d@)))
                    },
                }
            }),
    {
        if req.method == String::from_str("invoke") {
            match req.params {
                Params::Invoke(ip) => {
                    match self.registry.dispatch(&ip.selector, &ip.calldata) {
                        Ok(values) => MessageFactory::result(req.id, values),
                        Err(DispatchError::UnknownSelector { selector, known }) => {
                            let message = unknown_selector_message(&selector, &known);
                            MessageFactory::error(
                                req.id,
                                ResponseError {
                                    code: INVALID_PARAMS_CODE,
                                    message,
                                    data: None,
                                },
                            )
                        },
                        Err(DispatchError::BadParams(d)) => MessageFactory::error(
                            req.id,
                            ResponseError { code: INTERNAL_ERROR_CODE, message: d, data: None },
                        ),
                        Err(DispatchError::HandlerFailed(d)) => MessageFactory::error(
                            req.id,
                            ResponseError { code: INTERNAL_ERROR_CODE, message: d, data: None },
                        ),
                    }
                },
                Params::Null => {
                    let detail = String::from_str("params are null");
                    let message = invalid_params_message(&detail);
                    MessageFactory::error(
                        req.id,
                        ResponseError { code: INVALID_PARAMS_CODE, message, data: None },
                    )
                },
                Params::Opaque(d) => {
                    let message = invalid_params_message(&d);
                    MessageFactory::error(
                        req.id,
                        ResponseError { code: INVALID_PARAMS_CODE, message, data: None },
                    )
                },
            }
        } else {
            let message = method_not_found_message(&req.method);
            MessageFactory::error(
                req.id,
                ResponseError { code: METHOD_NOT_FOUND_CODE, message, data: None },
            )
        }
    }
}

} // verus!
