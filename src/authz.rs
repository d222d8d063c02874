//! Authorization: a composable chain of authorizers that allow, deny, abstain
//! or fail.
//!
//! An authorizer may have to ask a remote authorization service. Evaluation is
//! therefore replayable: it takes the answers the service gave so far, in the
//! order in which they were asked, and either decides or names the next
//! question ([`Evaluation::Ask`]). The caller asks it, appends the answer, and
//! evaluates again. Evaluation is deterministic, so every replay takes the
//! same path up to the new question.

use vstd::prelude::*;
use vstd::string::*;
use crate::error::{AuthError, AuthErrorView, result_view};
use crate::user::{Identity, UserInformation};

verus! {

broadcast use {vstd::seq::group_seq_axioms, vstd::std_specs::vec::group_vec_axioms};

/// The verdict of an authorizer that votes.
#[derive(Clone, Copy, Debug, PartialEq, Eq, Structural)]
pub enum Outcome {
    Allow,
    Deny,
}

impl View for Outcome {
    type V = Outcome;

    open spec fn view(&self) -> Outcome {
        *self
    }
}

/// A permission that the authorization service checks.
#[derive(Clone, Copy, Debug, PartialEq, Eq, Structural)]
pub enum Permission {
    Owner,
    Admin,
    Write,
    Read,
}

/// A named parameter of the request path, such as `application` in
/// `/apps/{application}`.
#[derive(Clone, Debug)]
pub struct PathParam {
    pub name: String,
    pub value: String,
}

/// What authorizers look at: the identity of the request and its path.
#[derive(Clone, Debug)]
pub struct Context {
    pub identity: UserInformation,
    pub params: Vec<PathParam>,
}

/// The mathematical value of a [`Context`].
pub struct ContextView {
    pub identity: Identity,
    pub params: Seq<(Seq<char>, Seq<char>)>,
}

impl View for Context {
    type V = ContextView;

    open spec fn view(&self) -> ContextView {
        ContextView {
            identity: self.identity@,
            params: self.params@.map_values(|p: PathParam| (p.name@, p.value@)),
        }
    }
}

/// The value of the first path parameter called `name`.
pub open spec fn param_value(params: Seq<(Seq<char>, Seq<char>)>, name: Seq<char>) -> Option<
    Seq<char>,
>
    decreases params.len(),
{
    if params.len() == 0 {
        None
    } else if params[0].0 == name {
        Some(params[0].1)
    } else {
        param_value(params.drop_first(), name)
    }
}

impl Context {
    /// The value of the first path parameter called `name`.
    pub fn param(&self, name: &String) -> (r: Option<String>)
        ensures
            r.deep_view() == param_value(self@.params, name@),
    {
        let ghost all = self@.params;
        let mut i: usize = 0;
        assert(all.subrange(0, all.len() as int) =~= all);
        while i < self.params.len()
            invariant
                0 <= i <= self.params.len(),
                all == self@.params,
                param_value(all, name@) == param_value(all.subrange(i as int, all.len() as int), name@),
            decreases self.params.len() - i,
        {
            let p = &self.params[i];
            assert(all.subrange(i as int, all.len() as int)[0] == (p.name@, p.value@));
            if p.name == *name {
                return Some(p.value.clone());
            }
            assert(all.subrange(i as int, all.len() as int).drop_first() =~= all.subrange(
                i + 1,
                all.len() as int,
            ));
            i = i + 1;
        }
        None
    }
}

/// Denies an anonymous identity, and abstains for any other.
#[derive(Clone, Copy, Debug, PartialEq, Eq, Structural)]
pub struct NotAnonymous;

/// Asks the authorization service whether the user holds `permission` on the
/// application named by the path parameter `app_param`. It never abstains.
#[derive(Clone, Debug)]
pub struct ApplicationAuthorizer {
    pub permission: Permission,
    pub app_param: String,
}

/// Replaces an abstention of `inner` with a fixed outcome.
#[derive(Debug)]
pub struct OrElseAuthorizer {
    pub inner: Box<Authorizer>,
    pub outcome: Outcome,
}

/// Reports a denial of `inner` as absence of the resource: its type is
/// `resource_type`, its id the value of the path parameter `id_param`
/// (empty where the path has none).
#[derive(Debug)]
pub struct IntoNotFound {
    pub inner: Box<Authorizer>,
    pub resource_type: String,
    pub id_param: String,
}

/// An authorizer.
#[derive(Debug)]
pub enum Authorizer {
    NotAnonymous(NotAnonymous),
    Application(ApplicationAuthorizer),
    /// Members in order: the first that does not abstain decides.
    Chain(Vec<Authorizer>),
    /// An authorizer that may be missing; a missing one abstains.
    Optional(Option<Box<Authorizer>>),
    OrElse(OrElseAuthorizer),
    IntoNotFound(IntoNotFound),
}

/// A question to the authorization service.
#[derive(Clone, Debug)]
pub struct PermissionRequest {
    /// The application the request is about.
    pub application: String,
    pub permission: Permission,
    pub user_id: Option<String>,
    pub roles: Vec<String>,
}

/// The mathematical value of a [`PermissionRequest`].
pub struct PermissionRequestView {
    pub application: Seq<char>,
    pub permission: Permission,
    pub user_id: Option<Seq<char>>,
    pub roles: Seq<Seq<char>>,
}

impl View for PermissionRequest {
    type V = PermissionRequestView;

    open spec fn view(&self) -> PermissionRequestView {
        PermissionRequestView {
            application: self.application@,
            permission: self.permission,
            user_id: self.user_id.deep_view(),
            roles: self.roles.deep_view(),
        }
    }
}

/// Where the evaluation of an authorizer stands.
#[derive(Debug)]
pub enum Evaluation {
    /// Decided: `Ok(None)` abstains, `Ok(Some(_))` votes, `Err` aborts.
    Done(Result<Option<Outcome>, AuthError>),
    /// The authorization service has to answer this question first.
    Ask(PermissionRequest),
}

/// The mathematical value of an [`Evaluation`].
pub enum EvaluationView {
    Done(Result<Option<Outcome>, AuthErrorView>),
    Ask(PermissionRequestView),
}

impl View for Evaluation {
    type V = EvaluationView;

    open spec fn view(&self) -> EvaluationView {
        match self {
            Evaluation::Done(Ok(v)) => EvaluationView::Done(Ok(*v)),
            Evaluation::Done(Err(e)) => EvaluationView::Done(Err(e@)),
            Evaluation::Ask(q) => EvaluationView::Ask(q@),
        }
    }
}

/// The answers of the authorization service, as values.
pub open spec fn answers_view(a: Seq<Result<Outcome, AuthError>>) -> Seq<
    Result<Outcome, AuthErrorView>,
> {
    a.map_values(|r: Result<Outcome, AuthError>| result_view(r))
}

/// The error text when the path lacks the parameter that names the application.
pub open spec fn missing_param_message(param: Seq<char>) -> Seq<char> {
    "Missing '"@ + param + "' information"@
}

/// An abstention.
pub open spec fn abstain() -> EvaluationView {
    EvaluationView::Done(Ok(None))
}

/// Evaluate `a` in `ctx`, where `answers[used..]` are the answers not yet
/// taken; the result comes with the number of answers taken after it.
pub open spec fn eval(
    a: Authorizer,
    ctx: ContextView,
    answers: Seq<Result<Outcome, AuthErrorView>>,
    used: nat,
) -> (EvaluationView, nat)
    decreases a, 0int,
{
    match a {
        Authorizer::NotAnonymous(_) => (
            EvaluationView::Done(
                Ok(
                    if ctx.identity is Anonymous {
                        Some(Outcome::Deny)
                    } else {
                        None
                    },
                ),
            ),
            used,
        ),
        Authorizer::Application(app) => match param_value(ctx.params, app.app_param@) {
            None => (
                EvaluationView::Done(
                    Err(AuthErrorView::InvalidRequest(missing_param_message(app.app_param@))),
                ),
                used,
            ),
            Some(id) => if used < answers.len() {
                (
                    EvaluationView::Done(
                        match answers[used as int] {
                            Ok(o) => Ok(Some(o)),
                            Err(e) => Err(e),
                        },
                    ),
                    used + 1,
                )
            } else {
                (
                    EvaluationView::Ask(
                        PermissionRequestView {
                            application: id,
                            permission: app.permission,
                            user_id: ctx.identity.user_id(),
                            roles: ctx.identity.roles(),
                        },
                    ),
                    used,
                )
            },
        },
        Authorizer::Chain(members) => eval_chain(members@, 0, ctx, answers, used),
        Authorizer::Optional(o) => match o {
            None => (abstain(), used),
            Some(inner) => eval(*inner, ctx, answers, used),
        },
        Authorizer::OrElse(x) => {
            let (r, u) = eval(*x.inner, ctx, answers, used);
            (
                if r == abstain() {
                    EvaluationView::Done(Ok(Some(x.outcome)))
                } else {
                    r
                },
                u,
            )
        },
        Authorizer::IntoNotFound(x) => {
            let (r, u) = eval(*x.inner, ctx, answers, used);
            (
                if r == EvaluationView::Done(Ok(Some(Outcome::Deny))) {
                    EvaluationView::Done(
                        Err(
                            AuthErrorView::NotFound(
                                x.resource_type@,
                                not_found_id(ctx, x.id_param@),
                            ),
                        ),
                    )
                } else {
                    r
                },
                u,
            )
        },
    }
}

/// The id that a not-found error reports: the path parameter, or empty.
pub open spec fn not_found_id(ctx: ContextView, id_param: Seq<char>) -> Seq<char> {
    match param_value(ctx.params, id_param) {
        Some(v) => v,
        None => Seq::empty(),
    }
}

/// Evaluate the members `s[i..]` of a chain: the first that does not abstain
/// decides, and the chain abstains when all of them do.
pub open spec fn eval_chain(
    s: Seq<Authorizer>,
    i: int,
    ctx: ContextView,
    answers: Seq<Result<Outcome, AuthErrorView>>,
    used: nat,
) -> (EvaluationView, nat)
    decreases s, s.len() - i,
{
    if i < 0 || i >= s.len() {
        (abstain(), used)
    } else {
        let (r, u) = eval(s[i], ctx, answers, used);
        if r == abstain() {
            eval_chain(s, i + 1, ctx, answers, u)
        } else {
            (r, u)
        }
    }
}

impl Authorizer {
    /// Evaluate this authorizer in `ctx`, where `answers` are the answers of
    /// the authorization service to the questions asked so far, in order.
    pub fn authorize(&self, ctx: &Context, answers: &Vec<Result<Outcome, AuthError>>) -> (r:
        Evaluation)
        ensures
            r@ == eval(*self, ctx@, answers_view(answers@), 0).0,
    {
        self.evaluate(ctx, answers, 0).0
    }

    /// Evaluate this authorizer, taking answers from `answers[used..]`.
    fn evaluate(&self, ctx: &Context, answers: &Vec<Result<Outcome, AuthError>>, used: usize) -> (r:
        (Evaluation, usize))
        requires
            used <= answers.len(),
        ensures
            (r.0@, r.1 as nat) == eval(*self, ctx@, answers_view(answers@), used as nat),
            r.1 <= answers.len(),
        decreases *self, 0int,
    {
        match self {
            Authorizer::NotAnonymous(_) => {
                let vote = match &ctx.identity {
                    UserInformation::Anonymous => Some(Outcome::Deny),
                    UserInformation::Authenticated(_) => None,
                };
                (Evaluation::Done(Ok(vote)), used)
            },
            Authorizer::Application(app) => match ctx.param(&app.app_param) {
                None => {
                    let message = String::from_str("Missing '").concat(app.app_param.as_str()).concat(
                        "' information",
                    );
                    (Evaluation::Done(Err(AuthError::InvalidRequest(message))), used)
                },
                Some(application) => {
                    if used < answers.len() {
                        let answer = match &answers[used] {
                            Ok(o) => Ok(Some(*o)),
                            Err(e) => Err(e.duplicate()),
                        };
                        (Evaluation::Done(answer), used + 1)
                    } else {
                        let user_id = match ctx.identity.user_id() {
                            Some(id) => Some(String::from_str(id)),
                            None => None,
                        };
                        let request = PermissionRequest {
                            application,
                            permission: app.permission,
                            user_id,
                            roles: ctx.identity.roles(),
                        };
                        (Evaluation::Ask(request), used)
                    }
                },
            },
            Authorizer::Chain(members) => evaluate_chain(members, 0, ctx, answers, used),
            Authorizer::Optional(o) => match o {
                None => (Evaluation::Done(Ok(None)), used),
                Some(inner) => inner.evaluate(ctx, answers, used),
            },
            Authorizer::OrElse(x) => {
                let (r, u) = x.inner.evaluate(ctx, answers, used);
                match r {
                    Evaluation::Done(Ok(None)) => (Evaluation::Done(Ok(Some(x.outcome))), u),
                    other => (other, u),
                }
            },
            Authorizer::IntoNotFound(x) => {
                let (r, u) = x.inner.evaluate(ctx, answers, used);
                match r {
                    Evaluation::Done(Ok(Some(Outcome::Deny))) => {
                        let id = match ctx.param(&x.id_param) {
                            Some(v) => v,
                            None => String::new(),
                        };
                        (
                            Evaluation::Done(Err(AuthError::NotFound(x.resource_type.clone(), id))),
                            u,
                        )
                    },
                    other => (other, u),
                }
            },
        }
    }
}

/// Evaluate the members `members[i..]` of a chain.
fn evaluate_chain(
    members: &Vec<Authorizer>,
    i: usize,
    ctx: &Context,
    answers: &Vec<Result<Outcome, AuthError>>,
    used: usize,
) -> (r: (Evaluation, usize))
    requires
        used <= answers.len(),
        i <= members.len(),
    ensures
        (r.0@, r.1 as nat) == eval_chain(members@, i as int, ctx@, answers_view(answers@), used as nat),
        r.1 <= answers.len(),
    decreases members@, members.len() - i,
{
    if i >= members.len() {
        return (Evaluation::Done(Ok(None)), used);
    }
    let (r, u) = members[i].evaluate(ctx, answers, used);
    match r {
        Evaluation::Done(Ok(None)) => evaluate_chain(members, i + 1, ctx, answers, u),
        other => (other, u),
    }
}

impl Authorizer {
    /// This authorizer, with an abstention replaced by `outcome`.
    pub fn or_else(self, outcome: Outcome) -> (r: Authorizer)
        ensures
            r matches Authorizer::OrElse(x) && *x.inner == self && x.outcome == outcome,
    {
        Authorizer::OrElse(OrElseAuthorizer { inner: Box::new(self), outcome })
    }

    /// This authorizer, allowing where it abstains.
    pub fn or_else_allow(self) -> (r: Authorizer)
        ensures
            r matches Authorizer::OrElse(x) && *x.inner == self && x.outcome == Outcome::Allow,
    {
        self.or_else(Outcome::Allow)
    }

    /// This authorizer, denying where it abstains.
    pub fn or_else_deny(self) -> (r: Authorizer)
        ensures
            r matches Authorizer::OrElse(x) && *x.inner == self && x.outcome == Outcome::Deny,
    {
        self.or_else(Outcome::Deny)
    }

    /// This authorizer, reporting a denial as absence of a `resource_type`
    /// whose id is the path parameter `id_param`.
    pub fn into_not_found(self, resource_type: String, id_param: String) -> (r: Authorizer)
        ensures
            r matches Authorizer::IntoNotFound(x) && *x.inner == self && x.resource_type@
                == resource_type@ && x.id_param@ == id_param@,
    {
        Authorizer::IntoNotFound(IntoNotFound { inner: Box::new(self), resource_type, id_param })
    }
}

/// The combination of a first evaluation with the chain `rest` that follows
/// it: `rest` is evaluated only where the first abstained.
pub open spec fn then_chain(
    first: (EvaluationView, nat),
    rest: Seq<Authorizer>,
    ctx: ContextView,
    answers: Seq<Result<Outcome, AuthErrorView>>,
) -> (EvaluationView, nat) {
    if first.0 == abstain() {
        eval_chain(rest, 0, ctx, answers, first.1)
    } else {
        first
    }
}

proof fn lemma_chain_shift(
    x: Seq<Authorizer>,
    y: Seq<Authorizer>,
    j: int,
    ctx: ContextView,
    answers: Seq<Result<Outcome, AuthErrorView>>,
    used: nat,
)
    requires
        0 <= j,
    ensures
        eval_chain(x + y, x.len() + j, ctx, answers, used) == eval_chain(y, j, ctx, answers, used),
    decreases y.len() - j,
{
    if j < y.len() {
        assert((x + y)[x.len() + j] == y[j]);
        let (r, u) = eval(y[j], ctx, answers, used);
        lemma_chain_shift(x, y, j + 1, ctx, answers, u);
    }
}

proof fn lemma_chain_split(
    x: Seq<Authorizer>,
    y: Seq<Authorizer>,
    i: int,
    ctx: ContextView,
    answers: Seq<Result<Outcome, AuthErrorView>>,
    used: nat,
)
    requires
        0 <= i <= x.len(),
    ensures
        eval_chain(x + y, i, ctx, answers, used) == then_chain(
            eval_chain(x, i, ctx, answers, used),
            y,
            ctx,
            answers,
        ),
    decreases x.len() - i,
{
    if i == x.len() {
        lemma_chain_shift(x, y, 0, ctx, answers, used);
    } else {
        assert((x + y)[i] == x[i]);
        let (r, u) = eval(x[i], ctx, answers, used);
        lemma_chain_split(x, y, i + 1, ctx, answers, u);
    }
}

/// In a chain, the first member that does not abstain decides, and the
/// members after it are not evaluated: the chain takes no answers beyond
/// those of that member. This holds for a vote as for an error.
pub proof fn lemma_first_decisive_member_wins(
    first: Authorizer,
    rest: Seq<Authorizer>,
    ctx: ContextView,
    answers: Seq<Result<Outcome, AuthErrorView>>,
    used: nat,
)
    requires
        eval(first, ctx, answers, used).0 != abstain(),
    ensures
        eval_chain(seq![first] + rest, 0, ctx, answers, used) == eval(first, ctx, answers, used),
{
    assert((seq![first] + rest)[0] == first);
}

/// In a chain, a member that abstains hands the decision on to the members
/// after it.
pub proof fn lemma_abstaining_member_defers(
    first: Authorizer,
    rest: Seq<Authorizer>,
    ctx: ContextView,
    answers: Seq<Result<Outcome, AuthErrorView>>,
    used: nat,
)
    requires
        eval(first, ctx, answers, used).0 == abstain(),
    ensures
        eval_chain(seq![first] + rest, 0, ctx, answers, used) == eval_chain(
            rest,
            0,
            ctx,
            answers,
            eval(first, ctx, answers, used).1,
        ),
{
    assert((seq![first] + rest)[0] == first);
    lemma_chain_shift(seq![first], rest, 0, ctx, answers, eval(first, ctx, answers, used).1);
}

/// Chains are associative: a member that is itself the chain `inner`
/// evaluates as its members standing in its place.
pub proof fn lemma_chain_flattening(
    before: Seq<Authorizer>,
    group: Authorizer,
    inner: Seq<Authorizer>,
    after: Seq<Authorizer>,
    ctx: ContextView,
    answers: Seq<Result<Outcome, AuthErrorView>>,
    used: nat,
)
    requires
        group matches Authorizer::Chain(v) && v@ == inner,
    ensures
        eval_chain(before + seq![group] + after, 0, ctx, answers, used) == eval_chain(
            before + inner + after,
            0,
            ctx,
            answers,
            used,
        ),
{
    let g = seq![group];
    assert(before + g + after =~= before + (g + after));
    assert(before + inner + after =~= before + (inner + after));
    lemma_chain_split(before, g + after, 0, ctx, answers, used);
    lemma_chain_split(before, inner + after, 0, ctx, answers, used);
    let mid = eval_chain(before, 0, ctx, answers, used);
    if mid.0 == abstain() {
        let u = mid.1;
        lemma_chain_split(g, after, 0, ctx, answers, u);
        lemma_chain_split(inner, after, 0, ctx, answers, u);
        let (r, u2) = eval(group, ctx, answers, u);
        assert(eval_chain(g, 1, ctx, answers, u2) == (abstain(), u2));
    }
}

/// A denial turns into a not-found error for the resource that the context
/// names; an allowance passes unchanged.
pub proof fn lemma_denial_reported_as_not_found(
    x: IntoNotFound,
    ctx: ContextView,
    answers: Seq<Result<Outcome, AuthErrorView>>,
    used: nat,
)
    ensures
        eval(*x.inner, ctx, answers, used).0 == EvaluationView::Done(Ok(Some(Outcome::Deny)))
            ==> eval(Authorizer::IntoNotFound(x), ctx, answers, used).0 == EvaluationView::Done(
            Err(AuthErrorView::NotFound(x.resource_type@, not_found_id(ctx, x.id_param@))),
        ),
        eval(*x.inner, ctx, answers, used).0 == EvaluationView::Done(Ok(Some(Outcome::Allow)))
            ==> eval(Authorizer::IntoNotFound(x), ctx, answers, used) == eval(
            *x.inner,
            ctx,
            answers,
            used,
        ),
{
}

/// A default replaces an abstention, and leaves a vote or an error alone.
pub proof fn lemma_default_on_abstain(
    x: OrElseAuthorizer,
    ctx: ContextView,
    answers: Seq<Result<Outcome, AuthErrorView>>,
    used: nat,
)
    ensures
        eval(*x.inner, ctx, answers, used).0 == abstain() ==> eval(
            Authorizer::OrElse(x),
            ctx,
            answers,
            used,
        ).0 == EvaluationView::Done(Ok(Some(x.outcome))),
        eval(*x.inner, ctx, answers, used).0 != abstain() ==> eval(
            Authorizer::OrElse(x),
            ctx,
            answers,
            used,
        ) == eval(*x.inner, ctx, answers, used),
{
}

/// Where the authorization of a request stands.
#[derive(Debug)]
pub enum Authorization {
    /// Decided: `Ok` lets the request through.
    Done(Result<(), AuthError>),
    /// The authorization service has to answer this question first.
    Ask(PermissionRequest),
}

/// The mathematical value of an [`Authorization`].
pub enum AuthorizationView {
    Done(Result<(), AuthErrorView>),
    Ask(PermissionRequestView),
}

impl View for Authorization {
    type V = AuthorizationView;

    open spec fn view(&self) -> AuthorizationView {
        match self {
            Authorization::Done(Ok(())) => AuthorizationView::Done(Ok(())),
            Authorization::Done(Err(e)) => AuthorizationView::Done(Err(e@)),
            Authorization::Ask(q) => AuthorizationView::Ask(q@),
        }
    }
}

/// The final decision on an evaluation: only an allowance lets the request
/// through, and an abstention is a denial.
pub open spec fn authz_decision(e: EvaluationView) -> AuthorizationView {
    match e {
        EvaluationView::Done(Ok(Some(Outcome::Allow))) => AuthorizationView::Done(Ok(())),
        EvaluationView::Done(Ok(_)) => AuthorizationView::Done(Err(AuthErrorView::Forbidden)),
        EvaluationView::Done(Err(e)) => AuthorizationView::Done(Err(e)),
        EvaluationView::Ask(q) => AuthorizationView::Ask(q),
    }
}

/// Authorization of requests by an authorizer, denying where it abstains.
#[derive(Debug)]
pub struct AuthZ {
    pub authorizer: Authorizer,
}

impl AuthZ {
    pub fn new(authorizer: Authorizer) -> (r: AuthZ)
        ensures
            r.authorizer == authorizer,
    {
        AuthZ { authorizer }
    }

    /// Authorize a request in `ctx`, where `answers` are the answers of the
    /// authorization service to the questions asked so far, in order.
    pub fn authorize(&self, ctx: &Context, answers: &Vec<Result<Outcome, AuthError>>) -> (r:
        Authorization)
        ensures
            r@ == authz_decision(eval(self.authorizer, ctx@, answers_view(answers@), 0).0),
    {
        match self.authorizer.authorize(ctx, answers) {
            Evaluation::Done(Ok(Some(Outcome::Allow))) => Authorization::Done(Ok(())),
            Evaluation::Done(Ok(_)) => Authorization::Done(Err(AuthError::Forbidden)),
            Evaluation::Done(Err(e)) => Authorization::Done(Err(e)),
            Evaluation::Ask(q) => Authorization::Ask(q),
        }
    }
}

/// What the application check decides: with no authorization service, it
/// allows; otherwise it asks about the `application` path parameter, and a
/// denial is reported as a missing application.
pub open spec fn application_check(
    configured: bool,
    permission: Permission,
    ctx: ContextView,
    answers: Seq<Result<Outcome, AuthErrorView>>,
) -> EvaluationView {
    if !configured {
        EvaluationView::Done(Ok(Some(Outcome::Allow)))
    } else {
        match param_value(ctx.params, "application"@) {
            None => EvaluationView::Done(
                Err(AuthErrorView::InvalidRequest(missing_param_message("application"@))),
            ),
            Some(id) => if answers.len() > 0 {
                match answers[0] {
                    Ok(Outcome::Allow) => EvaluationView::Done(Ok(Some(Outcome::Allow))),
                    Ok(Outcome::Deny) => EvaluationView::Done(
                        Err(AuthErrorView::NotFound("Application"@, id)),
                    ),
                    Err(e) => EvaluationView::Done(Err(e)),
                }
            } else {
                EvaluationView::Ask(
                    PermissionRequestView {
                        application: id,
                        permission,
                        user_id: ctx.identity.user_id(),
                        roles: ctx.identity.roles(),
                    },
                )
            },
        }
    }
}

impl ApplicationAuthorizer {
    /// Authorization for endpoints that have an `application` path
    /// parameter, checking `permission` with the authorization service where
    /// one is configured, and allowing everything where none is.
    pub fn wrapping(configured: bool, permission: Permission) -> (r: AuthZ)
        ensures
            forall|ctx: ContextView, answers: Seq<Result<Outcome, AuthErrorView>>|
                #![auto]
                eval(r.authorizer, ctx, answers, 0).0 == application_check(
                    configured,
                    permission,
                    ctx,
                    answers,
                ),
    {
        let check = if configured {
            let app = Authorizer::Application(
                ApplicationAuthorizer { permission, app_param: String::from_str("application") },
            );
            Some(
                Box::new(
                    app.into_not_found(
                        String::from_str("Application"),
                        String::from_str("application"),
                    ),
                ),
            )
        } else {
            None
        };
        let r = AuthZ::new(Authorizer::Optional(check).or_else_allow());
        assert forall|ctx: ContextView, answers: Seq<Result<Outcome, AuthErrorView>>|
            #![auto]
            eval(r.authorizer, ctx, answers, 0).0 == application_check(
                configured,
                permission,
                ctx,
                answers,
            ) by {
            reveal_with_fuel(eval, 5);
        }
        r
    }
}

} // verus!
