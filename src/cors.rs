//! Cross-origin resource sharing (CORS) settings.

use vstd::prelude::*;
use std::str::FromStr;

verus! {

/// Settings of a CORS policy. Each list holds the comma-separated entries of
/// its setting.
#[derive(Clone, Debug)]
pub struct CorsSettings {
    pub allowed_origin_urls: Option<Vec<String>>,
    pub allowed_methods: Option<Vec<String>>,
    pub allowed_headers: Option<Vec<String>>,
    pub allow_any_method: bool,
    pub allow_any_header: bool,
    pub allow_any_origin: bool,
    pub expose_headers: Option<Vec<String>>,
    /// How long a preflight answer may be cached, in seconds.
    pub max_age: Option<u64>,
    pub disable_preflight: bool,
    pub send_wildcard: bool,
    pub disable_vary_header: bool,
    pub expose_any_header: bool,
    pub supports_credentials: bool,
}

/// Whether settings leave every option unset.
pub open spec fn unset(s: CorsSettings) -> bool {
    &&& s.allowed_origin_urls is None
    &&& s.allowed_methods is None
    &&& s.allowed_headers is None
    &&& !s.allow_any_method
    &&& !s.allow_any_header
    &&& !s.allow_any_origin
    &&& s.expose_headers is None
    &&& s.max_age is None
    &&& !s.disable_preflight
    &&& !s.send_wildcard
    &&& !s.disable_vary_header
    &&& !s.expose_any_header
    &&& !s.supports_credentials
}

impl Default for CorsSettings {
    fn default() -> (r: Self)
        ensures
            unset(r),
    {
        CorsSettings {
            allowed_origin_urls: None,
            allowed_methods: None,
            allowed_headers: None,
            allow_any_method: false,
            allow_any_header: false,
            allow_any_origin: false,
            expose_headers: None,
            max_age: None,
            disable_preflight: false,
            send_wildcard: false,
            disable_vary_header: false,
            expose_any_header: false,
            supports_credentials: false,
        }
    }
}

/// How CORS is handled.
#[derive(Clone, Debug)]
pub enum CorsConfig {
    /// No CORS handling.
    Disabled,
    /// A permissive policy, adjusted by the settings.
    Permissive(CorsSettings),
    /// A restrictive policy, opened up by the settings.
    Custom(CorsSettings),
}

impl Default for CorsConfig {
    fn default() -> (r: Self)
        ensures
            r is Disabled,
    {
        CorsConfig::Disabled
    }
}

impl CorsConfig {
    /// A permissive policy with no adjustments.
    pub fn permissive() -> (r: Self)
        ensures
            r matches CorsConfig::Permissive(s) && unset(s),
    {
        CorsConfig::Permissive(CorsSettings::default())
    }
}

/// A name for what `http::HeaderName::from_str` makes of a text: the header
/// name in its normal form, or `None` where the text is no header name.
pub uninterp spec fn header_name_of(s: Seq<char>) -> Option<Seq<char>>;

/// A name for what `http::Method::from_str` makes of a text: the method
/// name, or `None` where the text is no method.
pub uninterp spec fn method_of(s: Seq<char>) -> Option<Seq<char>>;

/// Relies on `http::HeaderName::from_str` and `HeaderName::as_str`: whether a
/// text is accepted, and the name it yields, depend on the text alone; an
/// empty text is rejected.
#[verifier::external_body]
fn parse_header_name(s: &str) -> (r: Option<String>)
    ensures
        r.deep_view() == header_name_of(s@),
        s@.len() == 0 ==> r is None,
{
    match http::HeaderName::from_str(s) {
        Ok(name) => Some(name.as_str().to_string()),
        Err(_) => None,
    }
}

/// Relies on `http::Method::from_str` and `Method::as_str`: whether a text is
/// accepted, and the method it yields, depend on the text alone; an empty
/// text is rejected.
#[verifier::external_body]
fn parse_method(s: &str) -> (r: Option<String>)
    ensures
        r.deep_view() == method_of(s@),
        s@.len() == 0 ==> r is None,
{
    match http::Method::from_str(s) {
        Ok(method) => Some(method.as_str().to_string()),
        Err(_) => None,
    }
}

/// What a list of texts holds: header names or methods.
pub enum NameKind {
    Header,
    Method,
}

/// What the parser of `kind` makes of a text.
pub open spec fn parse_name(kind: NameKind, s: Seq<char>) -> Option<Seq<char>> {
    match kind {
        NameKind::Header => header_name_of(s),
        NameKind::Method => method_of(s),
    }
}

/// The parsed entries of a list, or the first entry that does not parse.
pub open spec fn parse_names(kind: NameKind, s: Seq<Seq<char>>) -> Result<Seq<Seq<char>>, Seq<char>>
    decreases s.len(),
{
    if s.len() == 0 {
        Ok(Seq::empty())
    } else {
        match parse_name(kind, s[0]) {
            None => Err(s[0]),
            Some(first) => match parse_names(kind, s.drop_first()) {
                Ok(rest) => Ok(seq![first] + rest),
                Err(e) => Err(e),
            },
        }
    }
}

/// `done` followed by the outcome `r` of the entries that remain.
pub open spec fn prepend_names(done: Seq<Seq<char>>, r: Result<Seq<Seq<char>>, Seq<char>>) -> Result<
    Seq<Seq<char>>,
    Seq<char>,
> {
    match r {
        Ok(rest) => Ok(done + rest),
        Err(e) => Err(e),
    }
}

/// Parse every entry of `entries`; `Err` carries the first that does not parse.
fn convert_names(entries: &Vec<String>, kind: NameKind) -> (r: Result<Vec<String>, String>)
    ensures
        match r {
            Ok(v) => parse_names(kind, entries.deep_view()) == Ok::<_, Seq<char>>(v.deep_view()),
            Err(e) => parse_names(kind, entries.deep_view()) == Err::<Seq<Seq<char>>, _>(e@),
        },
{
    let ghost all = entries.deep_view();
    let mut out: Vec<String> = Vec::new();
    let mut i: usize = 0;
    assert(all.subrange(0, all.len() as int) =~= all);
    assert(out.deep_view() =~= Seq::<Seq<char>>::empty());
    assert(parse_names(kind, all) == prepend_names(out.deep_view(), parse_names(kind, all))) by {
        if let Ok(x) = parse_names(kind, all) {
            assert(Seq::<Seq<char>>::empty() + x =~= x);
        }
    }
    while i < entries.len()
        invariant
            0 <= i <= entries.len(),
            all == entries.deep_view(),
            parse_names(kind, all) == prepend_names(
                out.deep_view(),
                parse_names(kind, all.subrange(i as int, all.len() as int)),
            ),
        decreases entries.len() - i,
    {
        let ghost rest = all.subrange(i as int, all.len() as int);
        assert(rest[0] == entries[i as int]@);
        assert(rest.drop_first() =~= all.subrange(i + 1, all.len() as int));
        let parsed = match kind {
            NameKind::Header => parse_header_name(entries[i].as_str()),
            NameKind::Method => parse_method(entries[i].as_str()),
        };
        match parsed {
            None => {
                return Err(entries[i].clone());
            },
            Some(name) => {
                let ghost before = out.deep_view();
                out.push(name);
                assert(out.deep_view() =~= before.push(name@));
                assert forall|tail: Seq<Seq<char>>|
                    #![auto]
                    before + (seq![name@] + tail) =~= out.deep_view() + tail by {}
            },
        }
        i = i + 1;
    }
    assert(all.subrange(i as int, all.len() as int) =~= Seq::<Seq<char>>::empty());
    assert(out.deep_view() + Seq::<Seq<char>>::empty() =~= out.deep_view());
    Ok(out)
}

/// The parsed entries of an optional list.
pub open spec fn parse_opt_names(kind: NameKind, s: Option<Vec<String>>) -> Result<
    Option<Seq<Seq<char>>>,
    Seq<char>,
> {
    match s {
        None => Ok(None),
        Some(v) => match parse_names(kind, v.deep_view()) {
            Ok(names) => Ok(Some(names)),
            Err(e) => Err(e),
        },
    }
}

fn convert_opt_names(entries: &Option<Vec<String>>, kind: NameKind) -> (r: Result<
    Option<Vec<String>>,
    String,
>)
    ensures
        match r {
            Ok(None) => parse_opt_names(kind, *entries) == Ok::<Option<Seq<Seq<char>>>, Seq<char>>(None),
            Ok(Some(v)) => parse_opt_names(kind, *entries) == Ok::<_, Seq<char>>(
                Some(v.deep_view()),
            ),
            Err(e) => parse_opt_names(kind, *entries) == Err::<Option<Seq<Seq<char>>>, _>(e@),
        },
{
    match entries {
        None => Ok(None),
        Some(v) => match convert_names(v, kind) {
            Ok(names) => Ok(Some(names)),
            Err(e) => Err(e),
        },
    }
}

/// Why CORS settings cannot be applied.
#[derive(Clone, Debug)]
pub enum CorsConfigError {
    /// This entry is no valid HTTP header name.
    InvalidHeaderName(String),
    /// This entry is no valid HTTP method.
    InvalidMethod(String),
}

/// The mathematical value of a [`CorsConfigError`].
pub enum CorsConfigErrorView {
    InvalidHeaderName(Seq<char>),
    InvalidMethod(Seq<char>),
}

impl View for CorsConfigError {
    type V = CorsConfigErrorView;

    open spec fn view(&self) -> CorsConfigErrorView {
        match self {
            CorsConfigError::InvalidHeaderName(s) => CorsConfigErrorView::InvalidHeaderName(s@),
            CorsConfigError::InvalidMethod(s) => CorsConfigErrorView::InvalidMethod(s@),
        }
    }
}

/// One adjustment of a CORS policy, in terms of the policy builder.
#[derive(Clone, Debug)]
pub enum CorsStep {
    MaxAge(u64),
    AllowedHeaders(Vec<String>),
    AllowedOrigin(String),
    AllowedMethods(Vec<String>),
    SendWildcard,
    DisablePreflight,
    DisableVaryHeader,
    AllowAnyMethod,
    AllowAnyHeader,
    AllowAnyOrigin,
    SupportsCredentials,
    ExposeHeaders(Vec<String>),
    ExposeAnyHeader,
}

/// The mathematical value of a [`CorsStep`].
pub enum CorsStepView {
    MaxAge(u64),
    AllowedHeaders(Seq<Seq<char>>),
    AllowedOrigin(Seq<char>),
    AllowedMethods(Seq<Seq<char>>),
    SendWildcard,
    DisablePreflight,
    DisableVaryHeader,
    AllowAnyMethod,
    AllowAnyHeader,
    AllowAnyOrigin,
    SupportsCredentials,
    ExposeHeaders(Seq<Seq<char>>),
    ExposeAnyHeader,
}

impl View for CorsStep {
    type V = CorsStepView;

    open spec fn view(&self) -> CorsStepView {
        match self {
            CorsStep::MaxAge(a) => CorsStepView::MaxAge(*a),
            CorsStep::AllowedHeaders(h) => CorsStepView::AllowedHeaders(h.deep_view()),
            CorsStep::AllowedOrigin(o) => CorsStepView::AllowedOrigin(o@),
            CorsStep::AllowedMethods(m) => CorsStepView::AllowedMethods(m.deep_view()),
            CorsStep::SendWildcard => CorsStepView::SendWildcard,
            CorsStep::DisablePreflight => CorsStepView::DisablePreflight,
            CorsStep::DisableVaryHeader => CorsStepView::DisableVaryHeader,
            CorsStep::AllowAnyMethod => CorsStepView::AllowAnyMethod,
            CorsStep::AllowAnyHeader => CorsStepView::AllowAnyHeader,
            CorsStep::AllowAnyOrigin => CorsStepView::AllowAnyOrigin,
            CorsStep::SupportsCredentials => CorsStepView::SupportsCredentials,
            CorsStep::ExposeHeaders(h) => CorsStepView::ExposeHeaders(h.deep_view()),
            CorsStep::ExposeAnyHeader => CorsStepView::ExposeAnyHeader,
        }
    }
}

/// The views of a list of steps.
pub open spec fn steps_view(v: Seq<CorsStep>) -> Seq<CorsStepView> {
    v.map_values(|x: CorsStep| x@)
}

/// One step where `on` holds, none otherwise.
pub open spec fn step_if(on: bool, step: CorsStepView) -> Seq<CorsStepView> {
    if on {
        seq![step]
    } else {
        Seq::empty()
    }
}

/// The settings that take a list.
#[derive(Clone, Copy, Debug, PartialEq, Eq, Structural)]
pub enum ListSetting {
    AllowedHeaders,
    AllowedMethods,
    ExposeHeaders,
}

/// The step that a parsed optional list gives, if any.
pub open spec fn list_step(names: Option<Seq<Seq<char>>>, setting: ListSetting) -> Seq<
    CorsStepView,
> {
    match names {
        None => Seq::empty(),
        Some(n) => seq![
            match setting {
                ListSetting::AllowedHeaders => CorsStepView::AllowedHeaders(n),
                ListSetting::AllowedMethods => CorsStepView::AllowedMethods(n),
                ListSetting::ExposeHeaders => CorsStepView::ExposeHeaders(n),
            },
        ],
    }
}

/// One step per allowed origin.
pub open spec fn origin_steps(origins: Option<Vec<String>>) -> Seq<CorsStepView> {
    match origins {
        None => Seq::empty(),
        Some(v) => v.deep_view().map_values(|o: Seq<char>| CorsStepView::AllowedOrigin(o)),
    }
}

/// The adjustments that settings make once their lists are parsed, in the
/// order in which they are applied.
pub open spec fn plan_steps(
    s: CorsSettings,
    headers: Option<Seq<Seq<char>>>,
    methods: Option<Seq<Seq<char>>>,
    exposed: Option<Seq<Seq<char>>>,
) -> Seq<CorsStepView> {
    let upto0 = match s.max_age {
        Some(a) => seq![CorsStepView::MaxAge(a)],
        None => Seq::empty(),
    };
    let upto1 = upto0 + list_step(headers, ListSetting::AllowedHeaders);
    let upto2 = upto1 + origin_steps(s.allowed_origin_urls);
    let upto3 = upto2 + list_step(methods, ListSetting::AllowedMethods);
    let upto4 = upto3 + step_if(s.send_wildcard, CorsStepView::SendWildcard);
    let upto5 = upto4 + step_if(s.disable_preflight, CorsStepView::DisablePreflight);
    let upto6 = upto5 + step_if(s.disable_vary_header, CorsStepView::DisableVaryHeader);
    let upto7 = upto6 + step_if(s.allow_any_method, CorsStepView::AllowAnyMethod);
    let upto8 = upto7 + step_if(s.allow_any_header, CorsStepView::AllowAnyHeader);
    let upto9 = upto8 + step_if(s.allow_any_origin, CorsStepView::AllowAnyOrigin);
    let upto10 = upto9 + step_if(s.supports_credentials, CorsStepView::SupportsCredentials);
    let upto11 = upto10 + list_step(exposed, ListSetting::ExposeHeaders);
    upto11 + step_if(s.expose_any_header, CorsStepView::ExposeAnyHeader)
}

/// The adjustments that settings make, in the order in which they are
/// applied; the allowed headers, the allowed methods and the exposed headers
/// are checked in that order, and the first invalid entry is reported.
pub open spec fn cors_plan(s: CorsSettings) -> Result<Seq<CorsStepView>, CorsConfigErrorView> {
    let headers = parse_opt_names(NameKind::Header, s.allowed_headers);
    let methods = parse_opt_names(NameKind::Method, s.allowed_methods);
    let exposed = parse_opt_names(NameKind::Header, s.expose_headers);
    if let Err(e) = headers {
        Err(CorsConfigErrorView::InvalidHeaderName(e))
    } else if let Err(e) = methods {
        Err(CorsConfigErrorView::InvalidMethod(e))
    } else if let Err(e) = exposed {
        Err(CorsConfigErrorView::InvalidHeaderName(e))
    } else {
        Ok(plan_steps(s, headers->Ok_0, methods->Ok_0, exposed->Ok_0))
    }
}

/// Append `step` where `on` holds.
fn push_if(steps: &mut Vec<CorsStep>, on: bool, step: CorsStep)
    ensures
        steps_view(final(steps)@) == steps_view(old(steps)@) + step_if(on, step@),
{
    let ghost before = steps_view(steps@);
    if on {
        steps.push(step);
        assert(steps_view(steps@) =~= before + seq![step@]);
    } else {
        assert(steps_view(steps@) =~= before + Seq::<CorsStepView>::empty());
    }
}

/// Append the step that a parsed optional list gives, if any.
fn push_list(steps: &mut Vec<CorsStep>, names: Option<Vec<String>>, setting: ListSetting)
    ensures
        steps_view(final(steps)@) == steps_view(old(steps)@) + list_step(
            names.deep_view(),
            setting,
        ),
{
    let ghost before = steps_view(steps@);
    let ghost nv = names.deep_view();
    match names {
        Some(n) => {
            let step = match setting {
                ListSetting::AllowedHeaders => CorsStep::AllowedHeaders(n),
                ListSetting::AllowedMethods => CorsStep::AllowedMethods(n),
                ListSetting::ExposeHeaders => CorsStep::ExposeHeaders(n),
            };
            steps.push(step);
            assert(steps_view(steps@) =~= before + list_step(nv, setting));
        },
        None => {
            assert(steps_view(steps@) =~= before + Seq::<CorsStepView>::empty());
        },
    }
}

/// Append one step per allowed origin.
fn push_origins(steps: &mut Vec<CorsStep>, origins: &Option<Vec<String>>)
    ensures
        steps_view(final(steps)@) == steps_view(old(steps)@) + origin_steps(*origins),
{
    let ghost g = steps_view(steps@);
    match origins {
        Some(origins) => {
            let ghost ov = origins.deep_view();
            let mut i: usize = 0;
            assert(steps_view(steps@) =~= g + ov.take(0).map_values(
                |o: Seq<char>| CorsStepView::AllowedOrigin(o),
            ));
            while i < origins.len()
                invariant
                    0 <= i <= origins.len(),
                    ov == origins.deep_view(),
                    steps_view(steps@) =~= g + ov.take(i as int).map_values(
                        |o: Seq<char>| CorsStepView::AllowedOrigin(o),
                    ),
                decreases origins.len() - i,
            {
                let ghost before = steps_view(steps@);
                steps.push(CorsStep::AllowedOrigin(origins[i].clone()));
                assert(steps_view(steps@) =~= before.push(CorsStepView::AllowedOrigin(ov[i as int])));
                assert(ov.take(i + 1).map_values(|o: Seq<char>| CorsStepView::AllowedOrigin(o))
                    =~= ov.take(i as int).map_values(|o: Seq<char>| CorsStepView::AllowedOrigin(o)).push(
                    CorsStepView::AllowedOrigin(ov[i as int]),
                ));
                i = i + 1;
            }
            assert(ov.take(origins.len() as int) =~= ov);
        },
        None => {
            assert(steps_view(steps@) =~= g + Seq::<CorsStepView>::empty());
        },
    }
}

impl CorsSettings {
    /// The adjustments these settings make to a CORS policy, in order.
    pub fn apply(&self) -> (r: Result<Vec<CorsStep>, CorsConfigError>)
        ensures
            match r {
                Ok(v) => cors_plan(*self) == Ok::<_, CorsConfigErrorView>(steps_view(v@)),
                Err(e) => cors_plan(*self) == Err::<Seq<CorsStepView>, _>(e@),
            },
    {
        let headers = match convert_opt_names(&self.allowed_headers, NameKind::Header) {
            Ok(h) => h,
            Err(e) => {
                return Err(CorsConfigError::InvalidHeaderName(e));
            },
        };
        let methods = match convert_opt_names(&self.allowed_methods, NameKind::Method) {
            Ok(m) => m,
            Err(e) => {
                return Err(CorsConfigError::InvalidMethod(e));
            },
        };
        let exposed = match convert_opt_names(&self.expose_headers, NameKind::Header) {
            Ok(h) => h,
            Err(e) => {
                return Err(CorsConfigError::InvalidHeaderName(e));
            },
        };
        let ghost hv = headers.deep_view();
        let ghost mv = methods.deep_view();
        let ghost ev = exposed.deep_view();
        let mut steps: Vec<CorsStep> = Vec::new();
        match self.max_age {
            Some(a) => steps.push(CorsStep::MaxAge(a)),
            None => {},
        }
        assert(steps_view(steps@) =~= match self.max_age {
            Some(a) => seq![CorsStepView::MaxAge(a)],
            None => Seq::<CorsStepView>::empty(),
        });
        push_list(&mut steps, headers, ListSetting::AllowedHeaders);
        push_origins(&mut steps, &self.allowed_origin_urls);
        push_list(&mut steps, methods, ListSetting::AllowedMethods);
        push_if(&mut steps, self.send_wildcard, CorsStep::SendWildcard);
        push_if(&mut steps, self.disable_preflight, CorsStep::DisablePreflight);
        push_if(&mut steps, self.disable_vary_header, CorsStep::DisableVaryHeader);
        push_if(&mut steps, self.allow_any_method, CorsStep::AllowAnyMethod);
        push_if(&mut steps, self.allow_any_header, CorsStep::AllowAnyHeader);
        push_if(&mut steps, self.allow_any_origin, CorsStep::AllowAnyOrigin);
        push_if(&mut steps, self.supports_credentials, CorsStep::SupportsCredentials);
        push_list(&mut steps, exposed, ListSetting::ExposeHeaders);
        push_if(&mut steps, self.expose_any_header, CorsStep::ExposeAnyHeader);
        assert(steps_view(steps@) == plan_steps(*self, hv, mv, ev));
        Ok(steps)
    }
}

/// The policy that CORS adjustments start from.
#[derive(Clone, Copy, Debug, PartialEq, Eq, Structural)]
pub enum CorsBase {
    /// Everything allowed.
    Permissive,
    /// Nothing allowed.
    Restrictive,
}

impl CorsConfig {
    /// The CORS policy to install: none where CORS is disabled, otherwise a
    /// base policy with the adjustments of the settings.
    pub fn policy(&self) -> (r: Result<Option<(CorsBase, Vec<CorsStep>)>, CorsConfigError>)
        ensures
            *self is Disabled ==> r matches Ok(None),
            *self matches CorsConfig::Permissive(s) ==> match r {
                Ok(Some((base, v))) => base == CorsBase::Permissive && cors_plan(s) == Ok::<
                    _,
                    CorsConfigErrorView,
                >(steps_view(v@)),
                Ok(None) => false,
                Err(e) => cors_plan(s) == Err::<Seq<CorsStepView>, _>(e@),
            },
            *self matches CorsConfig::Custom(s) ==> match r {
                Ok(Some((base, v))) => base == CorsBase::Restrictive && cors_plan(s) == Ok::<
                    _,
                    CorsConfigErrorView,
                >(steps_view(v@)),
                Ok(None) => false,
                Err(e) => cors_plan(s) == Err::<Seq<CorsStepView>, _>(e@),
            },
    {
        match self {
            CorsConfig::Disabled => Ok(None),
            CorsConfig::Permissive(s) => match s.apply() {
                Ok(steps) => Ok(Some((CorsBase::Permissive, steps))),
                Err(e) => Err(e),
            },
            CorsConfig::Custom(s) => match s.apply() {
                Ok(steps) => Ok(Some((CorsBase::Restrictive, steps))),
                Err(e) => Err(e),
            },
        }
    }
}

} // verus!
