//! Asking the embedder, and what it answers.

use vstd::prelude::*;

use super::plan::{CallView, HostCall};
use crate::fetch::{FetchRequest, FetchResponse, Fetcher, ResponseView, SendOutcome, Sink};
use crate::host::Host;
use crate::memory::texts;

verus! {

/// What the embedder answers.
pub enum Answer {
    Done,
    Text(String),
    Number(u32),
    List(Vec<String>),
    Bytes(Vec<u8>),
    Flag(bool),
    Fetched(Option<FetchResponse>),
    Sent(SendOutcome),
}

/// What an [`Answer`] says.
pub enum AnswerView {
    Done,
    Text(Seq<char>),
    Number(u32),
    List(Seq<Seq<char>>),
    Bytes(Seq<u8>),
    Flag(bool),
    Fetched(Option<ResponseView>),
    Sent(SendOutcome),
}

impl View for Answer {
    type V = AnswerView;

    open spec fn view(&self) -> AnswerView {
        match *self {
            Answer::Done => AnswerView::Done,
            Answer::Text(text) => AnswerView::Text(text@),
            Answer::Number(n) => AnswerView::Number(n),
            Answer::List(items) => AnswerView::List(texts(items@)),
            Answer::Bytes(bytes) => AnswerView::Bytes(bytes@),
            Answer::Flag(b) => AnswerView::Flag(b),
            Answer::Fetched(Some(response)) => AnswerView::Fetched(Some(response@)),
            Answer::Fetched(None) => AnswerView::Fetched(None),
            Answer::Sent(outcome) => AnswerView::Sent(outcome),
        }
    }
}

/// Whether a call only looks at the host.
pub open spec fn only_reads(call: CallView) -> bool {
    match call {
        CallView::SetMethod(_)
        | CallView::SetUri(_)
        | CallView::SetStatusCode(_)
        | CallView::SetHeaderValue(_, _, _)
        | CallView::AddHeaderValue(_, _, _)
        | CallView::RemoveHeader(_, _)
        | CallView::ReadBody(_, _)
        | CallView::WriteBody(_, _) => false,
        _ => true,
    }
}

/// Whether `answer` is what the embedder's own code gave to `call`: it was the
/// method for that call, on `host`, that was run, with the arguments that `call`
/// holds, and `answer` is what it returned. A fetch without a fetcher fails, a
/// send without a sink is rejected.
pub open spec fn answered<H: Host + ?Sized, F: Fetcher + ?Sized, S: Sink + ?Sized>(
    host: &mut H,
    fetcher: Option<&F>,
    sink: Option<&S>,
    call: CallView,
    answer: AnswerView,
) -> bool {
    match call {
        CallView::Method => exists|v: String| #[trigger]
            call_ensures(H::method, (&*host,), v) && answer == AnswerView::Text(v@),
        CallView::SetMethod(method) => answer is Done && exists|m: &str|
            m@ == method && #[trigger] call_ensures(H::set_method, (host, m), ()),
        CallView::Uri => exists|v: String| #[trigger]
            call_ensures(H::uri, (&*host,), v) && answer == AnswerView::Text(v@),
        CallView::SetUri(uri) => answer is Done && exists|u: &str|
            u@ == uri && #[trigger] call_ensures(H::set_uri, (host, u), ()),
        CallView::ProtocolVersion => exists|v: String| #[trigger]
            call_ensures(H::protocol_version, (&*host,), v) && answer == AnswerView::Text(v@),
        CallView::SourceAddr => exists|v: String| #[trigger]
            call_ensures(H::source_addr, (&*host,), v) && answer == AnswerView::Text(v@),
        CallView::StatusCode => exists|v: u32| #[trigger]
            call_ensures(H::status_code, (&*host,), v) && answer == AnswerView::Number(v),
        CallView::SetStatusCode(status) => answer is Done && call_ensures(
            H::set_status_code,
            (host, status),
            (),
        ),
        CallView::HeaderNames(kind) => exists|v: Vec<String>| #[trigger]
            call_ensures(H::header_names, (&*host, kind), v) && answer == AnswerView::List(
                texts(v@),
            ),
        CallView::HeaderValues(kind, name) => exists|n: &str, v: Vec<String>|
            n@ == name && #[trigger] call_ensures(H::header_values, (&*host, kind, n), v)
                && answer == AnswerView::List(texts(v@)),
        CallView::SetHeaderValue(kind, name, value) => answer is Done && exists|n: &str, v: &str|
            n@ == name && v@ == value && #[trigger] call_ensures(
                H::set_header_value,
                (host, kind, n, v),
                (),
            ),
        CallView::AddHeaderValue(kind, name, value) => answer is Done && exists|n: &str, v: &str|
            n@ == name && v@ == value && #[trigger] call_ensures(
                H::add_header_value,
                (host, kind, n, v),
                (),
            ),
        CallView::RemoveHeader(kind, name) => answer is Done && exists|n: &str|
            n@ == name && #[trigger] call_ensures(H::remove_header, (host, kind, n), ()),
        CallView::ReadBody(kind, max) => exists|m: usize, v: Vec<u8>|
            m == max && #[trigger] call_ensures(H::read_body, (host, kind, m), v) && answer
                == AnswerView::Bytes(v@),
        CallView::WriteBody(kind, data) => answer is Done && exists|d: &[u8]|
            d@ == data && #[trigger] call_ensures(H::write_body, (host, kind, d), ()),
        CallView::Config => exists|v: Vec<u8>| #[trigger]
            call_ensures(H::config, (&*host,), v) && answer == AnswerView::Bytes(v@),
        CallView::Log(level, message) => answer is Done && exists|m: &str|
            m@ == message && #[trigger] call_ensures(H::log, (&*host, level, m), ()),
        CallView::LogEnabled(level) => exists|v: bool| #[trigger]
            call_ensures(H::log_enabled, (&*host, level), v) && answer == AnswerView::Flag(v),
        CallView::Fetch(request) => match fetcher {
            Some(fetcher) => exists|r: FetchRequest, v: Result<FetchResponse, String>|
                r@ == request && #[trigger] call_ensures(F::fetch, (fetcher, r), v) && answer
                    == AnswerView::Fetched(
                    match v {
                        Ok(response) => Some(response@),
                        Err(_) => None,
                    },
                ),
            None => answer == AnswerView::Fetched(None),
        },
        CallView::Send(request) => match sink {
            Some(sink) => exists|r: FetchRequest, v: SendOutcome|
                r@ == request && #[trigger] call_ensures(S::send, (sink, r), v) && answer
                    == AnswerView::Sent(v),
            None => answer == AnswerView::Sent(SendOutcome::Rejected),
        },
    }
}

/// Ask the embedder. The host ends in the state that the method left it in, and
/// in the state it was in if the call only looks at it.
pub fn ask<H: Host + ?Sized, F: Fetcher + ?Sized, S: Sink + ?Sized>(
    host: &mut H,
    fetcher: Option<&F>,
    sink: Option<&S>,
    call: HostCall,
) -> (answer: Answer)
    ensures
        exists|h: &mut H|
            &*h == &*old(host) && &*final(h) == &*final(host) && #[trigger] answered(
                h,
                fetcher,
                sink,
                call@,
                answer@,
            ),
        only_reads(call@) ==> &*final(host) == &*old(host),
{
    let ghost entry = host;
    let ghost asked = call@;
    match call {
        HostCall::Method => {
            let v = host.method();
            proof {
                assert(answered(entry, fetcher, sink, asked, Answer::Text(v)@));
            }
            Answer::Text(v)
        },
        HostCall::SetMethod(method) => {
            let m = method.as_str();
            host.set_method(m);
            proof {
                let h = choose|h: &mut H|
                    &*h == &*old(host) && &*final(h) == &*host && #[trigger] call_ensures(
                        H::set_method,
                        (h, m),
                        (),
                    );
                assert(answered(h, fetcher, sink, asked, Answer::Done@));
            }
            Answer::Done
        },
        HostCall::Uri => {
            let v = host.uri();
            proof {
                assert(answered(entry, fetcher, sink, asked, Answer::Text(v)@));
            }
            Answer::Text(v)
        },
        HostCall::SetUri(uri) => {
            let u = uri.as_str();
            host.set_uri(u);
            proof {
                let h = choose|h: &mut H|
                    &*h == &*old(host) && &*final(h) == &*host && #[trigger] call_ensures(
                        H::set_uri,
                        (h, u),
                        (),
                    );
                assert(answered(h, fetcher, sink, asked, Answer::Done@));
            }
            Answer::Done
        },
        HostCall::ProtocolVersion => {
            let v = host.protocol_version();
            proof {
                assert(answered(entry, fetcher, sink, asked, Answer::Text(v)@));
            }
            Answer::Text(v)
        },
        HostCall::SourceAddr => {
            let v = host.source_addr();
            proof {
                assert(answered(entry, fetcher, sink, asked, Answer::Text(v)@));
            }
            Answer::Text(v)
        },
        HostCall::StatusCode => {
            let v = host.status_code();
            proof {
                assert(answered(entry, fetcher, sink, asked, Answer::Number(v)@));
            }
            Answer::Number(v)
        },
        HostCall::SetStatusCode(status) => {
            host.set_status_code(status);
            proof {
                let h = choose|h: &mut H|
                    &*h == &*old(host) && &*final(h) == &*host && #[trigger] call_ensures(
                        H::set_status_code,
                        (h, status),
                        (),
                    );
                assert(answered(h, fetcher, sink, asked, Answer::Done@));
            }
            Answer::Done
        },
        HostCall::HeaderNames(kind) => {
            let v = host.header_names(kind);
            proof {
                assert(answered(entry, fetcher, sink, asked, Answer::List(v)@));
            }
            Answer::List(v)
        },
        HostCall::HeaderValues(kind, name) => {
            let n = name.as_str();
            let v = host.header_values(kind, n);
            proof {
                assert(answered(entry, fetcher, sink, asked, Answer::List(v)@));
            }
            Answer::List(v)
        },
        HostCall::SetHeaderValue(kind, name, value) => {
            let n = name.as_str();
            let v = value.as_str();
            host.set_header_value(kind, n, v);
            proof {
                let h = choose|h: &mut H|
                    &*h == &*old(host) && &*final(h) == &*host && #[trigger] call_ensures(
                        H::set_header_value,
                        (h, kind, n, v),
                        (),
                    );
                assert(answered(h, fetcher, sink, asked, Answer::Done@));
            }
            Answer::Done
        },
        HostCall::AddHeaderValue(kind, name, value) => {
            let n = name.as_str();
            let v = value.as_str();
            host.add_header_value(kind, n, v);
            proof {
                let h = choose|h: &mut H|
                    &*h == &*old(host) && &*final(h) == &*host && #[trigger] call_ensures(
                        H::add_header_value,
                        (h, kind, n, v),
                        (),
                    );
                assert(answered(h, fetcher, sink, asked, Answer::Done@));
            }
            Answer::Done
        },
        HostCall::RemoveHeader(kind, name) => {
            let n = name.as_str();
            host.remove_header(kind, n);
            proof {
                let h = choose|h: &mut H|
                    &*h == &*old(host) && &*final(h) == &*host && #[trigger] call_ensures(
                        H::remove_header,
                        (h, kind, n),
                        (),
                    );
                assert(answered(h, fetcher, sink, asked, Answer::Done@));
            }
            Answer::Done
        },
        HostCall::ReadBody(kind, max) => {
            let v = host.read_body(kind, max);
            proof {
                let h = choose|h: &mut H|
                    &*h == &*old(host) && &*final(h) == &*host && #[trigger] call_ensures(
                        H::read_body,
                        (h, kind, max),
                        v,
                    );
                assert(answered(h, fetcher, sink, asked, Answer::Bytes(v)@));
            }
            Answer::Bytes(v)
        },
        HostCall::WriteBody(kind, data) => {
            let d = data.as_slice();
            host.write_body(kind, d);
            proof {
                let h = choose|h: &mut H|
                    &*h == &*old(host) && &*final(h) == &*host && #[trigger] call_ensures(
                        H::write_body,
                        (h, kind, d),
                        (),
                    );
                assert(answered(h, fetcher, sink, asked, Answer::Done@));
            }
            Answer::Done
        },
        HostCall::Config => {
            let v = host.config();
            proof {
                assert(answered(entry, fetcher, sink, asked, Answer::Bytes(v)@));
            }
            Answer::Bytes(v)
        },
        HostCall::Log(level, message) => {
            let m = message.as_str();
            host.log(level, m);
            proof {
                assert(answered(entry, fetcher, sink, asked, Answer::Done@));
            }
            Answer::Done
        },
        HostCall::LogEnabled(level) => {
            let v = host.log_enabled(level);
            proof {
                assert(answered(entry, fetcher, sink, asked, Answer::Flag(v)@));
            }
            Answer::Flag(v)
        },
        HostCall::Fetch(request) => {
            let v = match fetcher {
                Some(fetcher) => match fetcher.fetch(request) {
                    Ok(response) => Some(response),
                    Err(_) => None,
                },
                None => None,
            };
            proof {
                assert(answered(entry, fetcher, sink, asked, Answer::Fetched(v)@));
            }
            Answer::Fetched(v)
        },
        HostCall::Send(request) => {
            let v = match sink {
                Some(sink) => sink.send(request),
                None => SendOutcome::Rejected,
            };
            proof {
                assert(answered(entry, fetcher, sink, asked, Answer::Sent(v)@));
            }
            Answer::Sent(v)
        },
    }
}

} // verus!
