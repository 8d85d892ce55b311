//! What holds of every connection, whatever the client sends.
use crate::auth::{
    available_methods, client_wf, credential_known, feed, next, reads, timeout_of, ActionView, ClientView, ConfigView, OutcomeView,
    Stage, AUTH_VERSION,
};
use crate::addr::{lemma_target_round_trip, port_bytes, request_frame, TargetView};
use crate::codes::{
    reply_frame, AddrType, AuthMethods, ResponseCode, SockCommand, RESERVED, SOCKS_VERSION,
};
use crate::text::lossy_text;
use vstd::prelude::*;

verus! {

/// A greeting that leaves the client no method at all is answered with "no
/// acceptable methods", and the connection closes without reading more.
pub proof fn lemma_no_method_closes(cfg: ConfigView, c: ClientView, offered: Seq<u8>)
    requires
        c.stage == Stage::Methods,
        offered.len() == c.need,
        available_methods(offered, cfg.methods, c.whitelisted).len() == 0,
    ensures
        next(cfg, c, offered).0.stage == Stage::Closed,
        next(cfg, c, offered).1 == (ActionView::Close {
            reply: seq![SOCKS_VERSION, AuthMethods::NoMethods.spec_byte()],
            outcome: OutcomeView::Socks(ResponseCode::RuleFailure),
        }),
{
}

/// A client that offers only `NoAuth`, which the server accepts, is answered
/// `{5, 0}` and goes straight on to its request: no username or password is read.
pub proof fn lemma_no_auth_skips_login(cfg: ConfigView, c: ClientView, offered: Seq<u8>)
    requires
        c.stage == Stage::Methods,
        offered.len() == c.need,
        offered.len() > 0,
        forall|i: int| 0 <= i < offered.len() ==> offered[i] == AuthMethods::NoAuth.spec_byte(),
        cfg.methods.contains(AuthMethods::NoAuth.spec_byte()),
    ensures
        next(cfg, c, offered).0.stage == Stage::RequestHeader,
        next(cfg, c, offered).1 == (ActionView::Read {
            reply: seq![SOCKS_VERSION, AuthMethods::NoAuth.spec_byte()],
            need: 4,
        }),
{
    let pred = |m: u8| cfg.methods.contains(m);
    let kept = offered.filter(pred);
    broadcast use vstd::seq_lib::group_filter_ensures;
    assert(kept.contains(offered[0]));
    let ms = available_methods(offered, cfg.methods, c.whitelisted);
    assert(ms == kept);
    if kept.contains(AuthMethods::UserPass.spec_byte()) {
        offered.lemma_filter_contains_rev(pred, AuthMethods::UserPass.spec_byte());
    }
    assert(!kept.contains(AuthMethods::UserPass.spec_byte()));
}

/// A username and password are let in exactly when some user has both: the
/// server answers `{1, 0}` and reads the request; else it answers `{1, 1}` and
/// closes.
pub proof fn lemma_login_by_equality(cfg: ConfigView, c: ClientView, password: Seq<u8>)
    requires
        c.stage == Stage::Password,
        password.len() == c.need,
    ensures
        credential_known(cfg.users, lossy_text(c.username), lossy_text(password)) ==> {
            &&& next(cfg, c, password).0.stage == Stage::RequestHeader
            &&& next(cfg, c, password).1 == (ActionView::Read {
                reply: seq![AUTH_VERSION, ResponseCode::Success.spec_byte()],
                need: 4,
            })
        },
        !credential_known(cfg.users, lossy_text(c.username), lossy_text(password)) ==> {
            &&& next(cfg, c, password).0.stage == Stage::Closed
            &&& next(cfg, c, password).1 == (ActionView::Close {
                reply: seq![AUTH_VERSION, ResponseCode::Failure.spec_byte()],
                outcome: OutcomeView::Socks(ResponseCode::RuleFailure),
            })
        },
{
}

/// `Bind` and `UdpAssociate` requests fail with a general failure reply, for
/// every address and port: no connect is ever asked for.
pub proof fn lemma_bind_and_udp_refused(cfg: ConfigView, c: ClientView, port: Seq<u8>)
    requires
        c.stage == Stage::Port,
        port.len() == c.need,
        c.command == SockCommand::Bind || c.command == SockCommand::UdpAssosiate,
    ensures
        next(cfg, c, port).0.stage == Stage::Closed,
        next(cfg, c, port).1 == (ActionView::Close {
            reply: reply_frame(ResponseCode::Failure),
            outcome: OutcomeView::Io,
        }),
{
}

/// A frame with a wrong version, an unknown command or address type, or too
/// few bytes closes the connection. A closed connection takes no more bytes
/// and no connect result, so nothing is relayed after it.
pub proof fn lemma_malformed_closes(cfg: ConfigView, c: ClientView, input: Seq<u8>)
    requires
        client_wf(c),
        ({
            ||| input.len() != c.need
            ||| (c.stage == Stage::Greeting && input[0] != SOCKS_VERSION)
            ||| (c.stage == Stage::RequestHeader && input[0] != SOCKS_VERSION)
            ||| (c.stage == Stage::RequestHeader && SockCommand::spec_from(input[1] as int) is None)
            ||| (c.stage == Stage::RequestHeader && AddrType::spec_from(input[3] as int) is None)
        }),
    ensures
        next(cfg, c, input).0.stage == Stage::Closed,
        next(cfg, c, input).1 is Close,
        !reads(Stage::Closed),
{
}

/// A connect request for any endpoint, sent as its frame, is read back as
/// that same endpoint: the connection dials it, and no byte is left over.
pub proof fn lemma_request_round_trip(cfg: ConfigView, c: ClientView, t: TargetView)
    requires
        c.stage == Stage::RequestHeader,
        c.need == 4,
        t.wf(),
    ensures
        ({
            let (kind, b) = t.wire();
            let frame = request_frame(SOCKS_VERSION, SockCommand::Connect, kind, b, t.port());
            let (c2, a, rest) = feed(cfg, c, frame, 3);
            &&& a == (ActionView::Connect { target: t, timeout_ms: timeout_of(cfg) })
            &&& c2.stage == Stage::Connecting
            &&& rest.len() == 0
        }),
{
    lemma_target_round_trip(t);
    let (kind, b) = t.wire();
    let p = t.port();
    let pb = port_bytes(p);
    let head = seq![SOCKS_VERSION, SockCommand::Connect.spec_byte(), RESERVED, kind.spec_byte()];
    let frame = request_frame(SOCKS_VERSION, SockCommand::Connect, kind, b, p);
    assert(frame.take(4) =~= head);
    let (c1, a1) = next(cfg, c, frame.take(4));
    let r1 = frame.skip(4);
    assert(a1 is Read);
    assert(feed(cfg, c, frame, 3) == feed(cfg, c1, r1, 2));
    if kind == AddrType::Domain {
        assert(c1.need == 1);
        assert(r1.take(1) =~= seq![b.len() as u8]);
        let (c2, a2) = next(cfg, c1, r1.take(1));
        let r2 = r1.skip(1);
        assert(a2 is Read);
        assert(c2.need == b.len());
        assert(feed(cfg, c1, r1, 2) == feed(cfg, c2, r2, 1));
        assert(r2.take(b.len() as int) =~= b);
        let (c3, a3) = next(cfg, c2, r2.take(b.len() as int));
        let r3 = r2.skip(b.len() as int);
        assert(a3 is Read);
        assert(c3.need == 2);
        assert(feed(cfg, c2, r2, 1) == feed(cfg, c3, r3, 0));
        assert(r3.take(2) =~= pb);
        assert(r3.skip(2).len() == 0);
    } else {
        assert(c1.need == b.len());
        assert(r1.take(b.len() as int) =~= b);
        let (c2, a2) = next(cfg, c1, r1.take(b.len() as int));
        let r2 = r1.skip(b.len() as int);
        assert(a2 is Read);
        assert(c2.need == 2);
        assert(feed(cfg, c1, r1, 2) == feed(cfg, c2, r2, 1));
        assert(r2.take(2) =~= pb);
        assert(r2.skip(2).len() == 0);
        let (c3, a3) = next(cfg, c2, r2.take(2));
        assert(!(a3 is Read));
    }
}

} // verus!
