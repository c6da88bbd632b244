//! How the names of a stack's objects are derived.
//!
//! Every name starts with the name of the namespace; the application adds
//! its role, and the service and the volume of an application add a suffix
//! of their own. All parts are joined by hyphens.

use crate::text::hyphenated;
use vstd::prelude::*;

verus! {

/// The name of an application: the namespace and the application's role.
pub open spec fn app_name(namespace: Seq<char>, role: Seq<char>) -> Seq<char> {
    hyphenated(namespace, role)
}

/// The name of the service in front of the application `app`.
pub open spec fn service_name(app: Seq<char>) -> Seq<char> {
    hyphenated(app, "svc"@)
}

/// The name of the volume of the application `app`.
pub open spec fn volume_name(app: Seq<char>) -> Seq<char> {
    hyphenated(app, "vol"@)
}

/// The role of the database.
pub open spec fn database_role() -> Seq<char> {
    "db"@
}

/// The role of the message queue.
pub open spec fn queue_role() -> Seq<char> {
    "mq"@
}

/// The role of the web server.
pub open spec fn web_role() -> Seq<char> {
    "web"@
}

} // verus!
