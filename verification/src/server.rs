//! The connection factory: numbers each new connection and hands it a fresh
//! session.

use vstd::prelude::*;
use crate::session::{fresh, opt_chars, Session, SessionView};

verus! {

/// The factory behind the listener. It counts connections and knows which
/// key is the admin's.
pub struct AppServer {
    /// The number given to the last connection (0 before the first).
    pub next_id: usize,
    /// Fingerprint of the key that may delete posts, if any.
    pub admin_fingerprint: Option<String>,
}

/// The mathematical meaning of an [`AppServer`].
pub struct AppServerView {
    pub next_id: nat,
    pub admin_fingerprint: Option<Seq<char>>,
}

impl View for AppServer {
    type V = AppServerView;

    open spec fn view(&self) -> AppServerView {
        AppServerView { next_id: self.next_id as nat, admin_fingerprint: opt_chars(self.admin_fingerprint) }
    }
}

/// A factory that has not served anybody yet.
pub open spec fn start(admin_fingerprint: Option<Seq<char>>) -> AppServerView {
    AppServerView { next_id: 0, admin_fingerprint }
}

/// Serving one connection: the count goes up by one, and the connection gets
/// that number and a fresh session.
pub open spec fn serve(s: AppServerView) -> (AppServerView, SessionView) {
    (
        AppServerView { next_id: s.next_id + 1, ..s },
        fresh((s.next_id + 1) as usize, s.admin_fingerprint),
    )
}

/// Serving `k` connections one after the other: the factory afterwards and
/// the sessions handed out, in order.
pub open spec fn serve_many(s: AppServerView, k: nat) -> (AppServerView, Seq<SessionView>)
    decreases k,
{
    if k == 0 {
        (s, Seq::empty())
    } else {
        let before = serve_many(s, (k - 1) as nat);
        let next = serve(before.0);
        (next.0, before.1.push(next.1))
    }
}

/// Connections from a new factory are numbered 1, 2, 3, ... in the order they
/// arrive, each with a fresh session; no two get the same number.
pub proof fn law_connections_numbered_in_order(admin: Option<Seq<char>>, k: nat)
    requires
        k <= usize::MAX,
    ensures
        serve_many(start(admin), k).0 == start_after(admin, k),
        serve_many(start(admin), k).1.len() == k,
        forall|i: int| 0 <= i < k ==> #[trigger] serve_many(start(admin), k).1[i] == fresh((i + 1) as usize, admin),
        forall|i: int, j: int| 0 <= i < j < k ==> serve_many(start(admin), k).1[i].id != serve_many(start(admin), k).1[j].id,
    decreases k,
{
    if k > 0 {
        law_connections_numbered_in_order(admin, (k - 1) as nat);
        let before = serve_many(start(admin), (k - 1) as nat);
        assert forall|i: int| 0 <= i < k implies #[trigger] serve_many(start(admin), k).1[i] == fresh((i + 1) as usize, admin) by {
            if i < k - 1 {
                assert(serve_many(start(admin), k).1[i] == before.1[i]);
            }
        }
        assert forall|i: int, j: int| 0 <= i < j < k implies serve_many(start(admin), k).1[i].id != serve_many(start(admin), k).1[j].id by {
            assert(serve_many(start(admin), k).1[i] == fresh((i + 1) as usize, admin));
            assert(serve_many(start(admin), k).1[j] == fresh((j + 1) as usize, admin));
        }
    }
}

/// A factory that has served `k` connections.
pub open spec fn start_after(admin: Option<Seq<char>>, k: nat) -> AppServerView {
    AppServerView { next_id: k, admin_fingerprint: admin }
}

impl AppServer {
    /// A factory that has not served any connection yet.
    pub fn new(admin_fingerprint: Option<String>) -> (s: AppServer)
        ensures
            s@ == start(opt_chars(admin_fingerprint)),
    {
        AppServer { next_id: 0, admin_fingerprint }
    }

    /// A new connection: it gets the next number, one more than the last
    /// connection's, and a fresh session.
    pub fn new_client(&mut self) -> (s: Session)
        requires
            old(self).next_id < usize::MAX,
        ensures
            (final(self)@, s@) == serve(old(self)@),
            s@.wf(),
    {
        self.next_id = self.next_id + 1;
        let admin = match &self.admin_fingerprint {
            Some(a) => Some(a.clone()),
            None => None,
        };
        Session::new(self.next_id, admin)
    }
}

} // verus!
