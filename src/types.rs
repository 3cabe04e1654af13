use vstd::prelude::*;

verus! {

/// A parameter value carried in a call. The core only looks inside string
/// and uuid values; everything else is passed through.
#[derive(Debug, PartialEq)]
pub enum Value {
    Null,
    Bool(bool),
    Int(i64),
    Str(String),
    Uuid(u128),
}

impl Value {
    /// A copy of this value.
    pub fn duplicate(&self) -> (r: Value)
        ensures
            r == *self,
    {
        match self {
            Value::Null => Value::Null,
            Value::Bool(b) => Value::Bool(*b),
            Value::Int(i) => Value::Int(*i),
            Value::Str(s) => Value::Str(s.clone()),
            Value::Uuid(u) => Value::Uuid(*u),
        }
    }
}

/// The verbs of the protocol that the core knows by name.
#[derive(Clone, Copy, Debug, PartialEq, Eq, Hash, Structural)]
pub enum Method {
    Health,
    Let,
    Unset,
    Live,
    Kill,
    Authenticate,
    Invalidate,
    Signin,
    Signup,
    Use,
    Query,
    Select,
    Create,
    Update,
    Merge,
    Patch,
    Delete,
    Version,
}

/// The wire name of a verb; the health check goes out as the keepalive verb.
pub open spec fn wire_name_of(m: Method) -> Seq<char> {
    match m {
        Method::Health => "ping"@,
        Method::Let => "let"@,
        Method::Unset => "unset"@,
        Method::Live => "live"@,
        Method::Kill => "kill"@,
        Method::Authenticate => "authenticate"@,
        Method::Invalidate => "invalidate"@,
        Method::Signin => "signin"@,
        Method::Signup => "signup"@,
        Method::Use => "use"@,
        Method::Query => "query"@,
        Method::Select => "select"@,
        Method::Create => "create"@,
        Method::Update => "update"@,
        Method::Merge => "merge"@,
        Method::Patch => "patch"@,
        Method::Delete => "delete"@,
        Method::Version => "version"@,
    }
}

/// Session-establishing verbs, whose last frame is replayed after a reconnect.
pub open spec fn is_session_method(m: Method) -> bool {
    m == Method::Authenticate || m == Method::Invalidate || m == Method::Signin
        || m == Method::Signup || m == Method::Use
}

impl Method {
    /// The name under which this verb travels on the wire.
    pub fn wire_name(&self) -> (r: &'static str)
        ensures
            r@ == wire_name_of(*self),
    {
        match self {
            Method::Health => { proof { reveal_strlit("ping"); } "ping" },
            Method::Let => { proof { reveal_strlit("let"); } "let" },
            Method::Unset => { proof { reveal_strlit("unset"); } "unset" },
            Method::Live => { proof { reveal_strlit("live"); } "live" },
            Method::Kill => { proof { reveal_strlit("kill"); } "kill" },
            Method::Authenticate => { proof { reveal_strlit("authenticate"); } "authenticate" },
            Method::Invalidate => { proof { reveal_strlit("invalidate"); } "invalidate" },
            Method::Signin => { proof { reveal_strlit("signin"); } "signin" },
            Method::Signup => { proof { reveal_strlit("signup"); } "signup" },
            Method::Use => { proof { reveal_strlit("use"); } "use" },
            Method::Query => { proof { reveal_strlit("query"); } "query" },
            Method::Select => { proof { reveal_strlit("select"); } "select" },
            Method::Create => { proof { reveal_strlit("create"); } "create" },
            Method::Update => { proof { reveal_strlit("update"); } "update" },
            Method::Merge => { proof { reveal_strlit("merge"); } "merge" },
            Method::Patch => { proof { reveal_strlit("patch"); } "patch" },
            Method::Delete => { proof { reveal_strlit("delete"); } "delete" },
            Method::Version => { proof { reveal_strlit("version"); } "version" },
        }
    }

    /// Whether the last frame of this verb is kept for replay.
    pub fn is_session(&self) -> (r: bool)
        ensures
            r == is_session_method(*self),
    {
        match self {
            Method::Authenticate | Method::Invalidate | Method::Signin | Method::Signup
            | Method::Use => true,
            _ => false,
        }
    }
}

/// An outbound frame before encoding: an optional call id, a verb and its
/// parameters (sent only when there are any).
#[derive(Debug, PartialEq)]
pub struct Frame {
    pub id: Option<i64>,
    pub method: Method,
    pub params: Vec<Value>,
}

/// The mathematical content of a frame.
pub struct FrameView {
    pub id: Option<i64>,
    pub method: Method,
    pub params: Seq<Value>,
}

impl View for Frame {
    type V = FrameView;

    open spec fn view(&self) -> FrameView {
        FrameView { id: self.id, method: self.method, params: self.params@ }
    }
}

/// Copies a list of values.
pub fn duplicate_values(v: &Vec<Value>) -> (r: Vec<Value>)
    ensures
        r@ == v@,
{
    let mut r: Vec<Value> = Vec::new();
    let mut i: usize = 0;
    while i < v.len()
        invariant
            i <= v@.len(),
            r@ == v@.subrange(0, i as int),
        decreases v@.len() - i,
    {
        r.push(v[i].duplicate());
        i = i + 1;
    }
    assert(r@ =~= v@);
    r
}

impl Frame {
    /// A copy of this frame.
    pub fn duplicate(&self) -> (r: Frame)
        ensures
            r@ == self@,
    {
        Frame { id: self.id, method: self.method, params: duplicate_values(&self.params) }
    }
}

} // verus!
