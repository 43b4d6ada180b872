//! [`Opts`] constrain the proxies that the API returns, and become the query of each request.

use vstd::prelude::*;

use crate::types::{Countries, LastChecked, Level, Protocol, TimeToConnect};

verus! {

/// A port number other than zero.
#[derive(Clone, Copy, Debug, PartialEq, Eq)]
pub struct Port {
    value: u16,
}

impl View for Port {
    type V = u16;

    closed spec fn view(&self) -> u16 {
        self.value
    }
}

impl Port {
    pub fn new(value: u16) -> (r: Option<Port>)
        ensures
            r is Some <==> value != 0,
            r matches Some(p) ==> p@ == value,
    {
        if value == 0 {
            None
        } else {
            Some(Port { value })
        }
    }

    pub fn get(&self) -> (r: u16)
        ensures
            r == self@,
    {
        self.value
    }
}

/// What an [`OptsBuilder`] holds.
pub struct BuilderModel {
    pub api_key: Option<Seq<char>>,
    pub level: Option<Level>,
    pub protocol: Option<Protocol>,
    pub countries: Option<Countries>,
    /// Seconds.
    pub last_checked: Option<u64>,
    pub port: Option<u16>,
    /// Seconds.
    pub time_to_connect: Option<u64>,
    pub cookies: Option<bool>,
    pub connects_to_google: Option<bool>,
    pub https: Option<bool>,
    pub post: Option<bool>,
    pub referer: Option<bool>,
    pub forwards_user_agent: Option<bool>,
}

pub open spec fn empty_builder() -> BuilderModel {
    BuilderModel {
        api_key: None,
        level: None,
        protocol: None,
        countries: None,
        last_checked: None,
        port: None,
        time_to_connect: None,
        cookies: None,
        connects_to_google: None,
        https: None,
        post: None,
        referer: None,
        forwards_user_agent: None,
    }
}

pub open spec fn opt_view<T: View>(o: Option<T>) -> Option<T::V> {
    match o {
        Some(v) => Some(v@),
        None => None,
    }
}

/// A builder for [`Opts`], made with `Opts::builder()`.
///
/// Each option left unset lets any value through, so options only constrain the results.
#[derive(Clone, Debug, PartialEq)]
pub struct OptsBuilder {
    api_key: Option<String>,
    level: Option<Level>,
    protocol: Option<Protocol>,
    countries: Option<Countries>,
    last_checked: Option<LastChecked>,
    port: Option<Port>,
    time_to_connect: Option<TimeToConnect>,
    cookies: Option<bool>,
    connects_to_google: Option<bool>,
    https: Option<bool>,
    post: Option<bool>,
    referer: Option<bool>,
    forwards_user_agent: Option<bool>,
}

impl View for OptsBuilder {
    type V = BuilderModel;

    closed spec fn view(&self) -> BuilderModel {
        BuilderModel {
            api_key: opt_view(self.api_key),
            level: self.level,
            protocol: self.protocol,
            countries: self.countries,
            last_checked: opt_view(self.last_checked),
            port: opt_view(self.port),
            time_to_connect: opt_view(self.time_to_connect),
            cookies: self.cookies,
            connects_to_google: self.connects_to_google,
            https: self.https,
            post: self.post,
            referer: self.referer,
            forwards_user_agent: self.forwards_user_agent,
        }
    }
}

impl Default for OptsBuilder {
    fn default() -> (r: Self)
        ensures
            r@ == empty_builder(),
    {
        OptsBuilder {
            api_key: None,
            level: None,
            protocol: None,
            countries: None,
            last_checked: None,
            port: None,
            time_to_connect: None,
            cookies: None,
            connects_to_google: None,
            https: None,
            post: None,
            referer: None,
            forwards_user_agent: None,
        }
    }
}

impl OptsBuilder {
    /// Passes an API key to the API, which lifts both its rate limit and its daily limit.
    pub fn api_key(self, api_key: String) -> (r: Self)
        ensures
            r@ == (BuilderModel { api_key: Some(api_key@), ..self@ }),
    {
        OptsBuilder { api_key: Some(api_key), ..self }
    }

    /// The anonymity level of the proxies.
    pub fn level(self, level: Level) -> (r: Self)
        ensures
            r@ == (BuilderModel { level: Some(level), ..self@ }),
    {
        OptsBuilder { level: Some(level), ..self }
    }

    /// The protocol the proxies support.
    pub fn protocol(self, protocol: Protocol) -> (r: Self)
        ensures
            r@ == (BuilderModel { protocol: Some(protocol), ..self@ }),
    {
        OptsBuilder { protocol: Some(protocol), ..self }
    }

    /// Either a block or an allowlist of the countries the proxies are in.
    pub fn countries(self, countries: Countries) -> (r: Self)
        ensures
            r@ == (BuilderModel { countries: Some(countries), ..self@ }),
    {
        OptsBuilder { countries: Some(countries), ..self }
    }

    /// How recently the proxies were checked; the API counts it in whole minutes.
    pub fn last_checked(self, last_checked: LastChecked) -> (r: Self)
        ensures
            r@ == (BuilderModel { last_checked: Some(last_checked@), ..self@ }),
    {
        OptsBuilder { last_checked: Some(last_checked), ..self }
    }

    /// The port the proxies expose.
    pub fn port(self, port: Port) -> (r: Self)
        ensures
            r@ == (BuilderModel { port: Some(port@), ..self@ }),
    {
        OptsBuilder { port: Some(port), ..self }
    }

    /// The longest time that connecting to a proxy took when it was tested.
    pub fn time_to_connect(self, time_to_connect: TimeToConnect) -> (r: Self)
        ensures
            r@ == (BuilderModel { time_to_connect: Some(time_to_connect@), ..self@ }),
    {
        OptsBuilder { time_to_connect: Some(time_to_connect), ..self }
    }

    /// Whether the proxies support cookies.
    pub fn cookies(self, cookies: bool) -> (r: Self)
        ensures
            r@ == (BuilderModel { cookies: Some(cookies), ..self@ }),
    {
        OptsBuilder { cookies: Some(cookies), ..self }
    }

    /// Whether the proxies could connect to google.
    pub fn connects_to_google(self, connects_to_google: bool) -> (r: Self)
        ensures
            r@ == (BuilderModel { connects_to_google: Some(connects_to_google), ..self@ }),
    {
        OptsBuilder { connects_to_google: Some(connects_to_google), ..self }
    }

    /// Whether the proxies support HTTPS requests.
    pub fn https(self, https: bool) -> (r: Self)
        ensures
            r@ == (BuilderModel { https: Some(https), ..self@ }),
    {
        OptsBuilder { https: Some(https), ..self }
    }

    /// Whether the proxies support POST requests.
    pub fn post(self, post: bool) -> (r: Self)
        ensures
            r@ == (BuilderModel { post: Some(post), ..self@ }),
    {
        OptsBuilder { post: Some(post), ..self }
    }

    /// Whether the proxies support referer requests.
    pub fn referer(self, referer: bool) -> (r: Self)
        ensures
            r@ == (BuilderModel { referer: Some(referer), ..self@ }),
    {
        OptsBuilder { referer: Some(referer), ..self }
    }

    /// Whether the proxies forward your user agent.
    pub fn forwards_user_agent(self, forwards_user_agent: bool) -> (r: Self)
        ensures
            r@ == (BuilderModel { forwards_user_agent: Some(forwards_user_agent), ..self@ }),
    {
        OptsBuilder { forwards_user_agent: Some(forwards_user_agent), ..self }
    }

    /// The [`Opts`] that this builder describes.
    pub fn build(self) -> (r: Opts)
        ensures
            r@ == opts_from(self@),
    {
        let r = Opts::from(self);
        proof {
            lemma_from_builder(self);
        }
        r
    }
}

/// How many proxies one answer of the API holds.
#[derive(Clone, Copy, Debug, PartialEq, Eq)]
pub enum Limit {
    Free,
    Premium,
}

impl Limit {
    pub open spec fn size(self) -> nat {
        match self {
            Limit::Free => 5,
            Limit::Premium => 20,
        }
    }

    pub fn page_size(&self) -> (r: usize)
        ensures
            r == self.size(),
    {
        match self {
            Limit::Free => 5,
            Limit::Premium => 20,
        }
    }
}

impl Default for Limit {
    fn default() -> (r: Self)
        ensures
            r == Limit::Free,
    {
        Limit::Free
    }
}

pub open spec fn limit_for(premium: bool) -> Limit {
    if premium {
        Limit::Premium
    } else {
        Limit::Free
    }
}

/// The format of the answers; only JSON is used.
#[derive(Clone, Copy, Debug, PartialEq, Eq)]
pub enum Format {
    Json,
}

impl Default for Format {
    fn default() -> (r: Self)
        ensures
            r == Format::Json,
    {
        Format::Json
    }
}

/// What an [`Opts`] holds.
pub struct OptsModel {
    pub api_key: Option<Seq<char>>,
    pub level: Option<Level>,
    pub protocol: Option<Protocol>,
    pub allow_countries: bool,
    /// Comma-separated codes; empty filters nothing.
    pub countries: Seq<char>,
    /// Minutes.
    pub last_checked: Option<u64>,
    pub port: Option<u16>,
    /// Seconds.
    pub time_to_connect: Option<u64>,
    pub cookies: Option<bool>,
    pub connects_to_google: Option<bool>,
    pub https: Option<bool>,
    pub post: Option<bool>,
    pub referer: Option<bool>,
    pub forwards_user_agent: Option<bool>,
    pub limit: Limit,
}

/// The options that a builder finalizes to. The page size follows from whether a key is given,
/// and durations are whole minutes and seconds as the API counts them.
pub open spec fn opts_from(b: BuilderModel) -> OptsModel {
    OptsModel {
        api_key: b.api_key,
        level: b.level,
        protocol: b.protocol,
        allow_countries: match b.countries {
            Some(c) => c.is_allow(),
            None => false,
        },
        countries: match b.countries {
            Some(c) => c.list(),
            None => Seq::empty(),
        },
        last_checked: match b.last_checked {
            Some(secs) => Some((secs / 60) as u64),
            None => None,
        },
        port: b.port,
        time_to_connect: b.time_to_connect,
        cookies: b.cookies,
        connects_to_google: b.connects_to_google,
        https: b.https,
        post: b.post,
        referer: b.referer,
        forwards_user_agent: b.forwards_user_agent,
        limit: limit_for(b.api_key is Some),
    }
}

/// A set of options that constrain the proxies returned by the API.
///
/// By default nothing is filtered. `Opts` are usually made with [`Opts::builder`].
#[derive(Clone, Debug, PartialEq, Eq)]
pub struct Opts {
    api_key: Option<String>,
    level: Option<Level>,
    protocol: Option<Protocol>,
    /// No list filters nothing, as an empty one does.
    countries: Option<Countries>,
    last_checked: Option<u64>,
    port: Option<Port>,
    time_to_connect: Option<u64>,
    cookies: Option<bool>,
    connects_to_google: Option<bool>,
    https: Option<bool>,
    post: Option<bool>,
    referer: Option<bool>,
    forwards_user_agent: Option<bool>,
    limit: Limit,
    format: Format,
}

impl View for Opts {
    type V = OptsModel;

    closed spec fn view(&self) -> OptsModel {
        OptsModel {
            api_key: opt_view(self.api_key),
            level: self.level,
            protocol: self.protocol,
            allow_countries: match self.countries {
                Some(c) => c.is_allow(),
                None => false,
            },
            countries: match self.countries {
                Some(c) => c.list(),
                None => Seq::empty(),
            },
            last_checked: self.last_checked,
            port: opt_view(self.port),
            time_to_connect: self.time_to_connect,
            cookies: self.cookies,
            connects_to_google: self.connects_to_google,
            https: self.https,
            post: self.post,
            referer: self.referer,
            forwards_user_agent: self.forwards_user_agent,
            limit: self.limit,
        }
    }
}

impl Opts {
    pub open spec fn premium(&self) -> bool {
        self@.api_key is Some
    }

    /// The page size matches whether a key is given; every `Opts` this module makes has it.
    pub open spec fn wf(&self) -> bool {
        self@.limit == limit_for(self.premium())
    }

    /// An [`OptsBuilder`] with no option set.
    pub fn builder() -> (r: OptsBuilder)
        ensures
            r@ == empty_builder(),
    {
        OptsBuilder::default()
    }

    /// Whether an API key is given.
    pub fn is_premium(&self) -> (r: bool)
        ensures
            r == self.premium(),
    {
        self.api_key.is_some()
    }

    /// How many proxies one answer holds: 20 with an API key, else 5.
    pub fn page_size(&self) -> (r: usize)
        ensures
            r == self@.limit.size(),
    {
        self.limit.page_size()
    }
}

impl Default for Opts {
    fn default() -> (r: Self)
        ensures
            r@ == opts_from(empty_builder()),
    {
        Opts::builder().build()
    }
}

impl From<OptsBuilder> for Opts {
    fn from(builder: OptsBuilder) -> (r: Opts) {
        let limit = match builder.api_key {
            Some(_) => Limit::Premium,
            None => Limit::Free,
        };
        let last_checked = match builder.last_checked {
            Some(l) => Some(l.value() / 60),
            None => None,
        };
        let time_to_connect = match builder.time_to_connect {
            Some(t) => Some(t.value()),
            None => None,
        };
        Opts {
            limit,
            api_key: builder.api_key,
            level: builder.level,
            protocol: builder.protocol,
            countries: builder.countries,
            last_checked,
            port: builder.port,
            time_to_connect,
            cookies: builder.cookies,
            connects_to_google: builder.connects_to_google,
            https: builder.https,
            post: builder.post,
            referer: builder.referer,
            forwards_user_agent: builder.forwards_user_agent,
            format: Format::Json,
        }
    }
}

impl vstd::std_specs::convert::FromSpecImpl<OptsBuilder> for Opts {
    open spec fn obeys_from_spec() -> bool {
        true
    }

    closed spec fn from_spec(b: OptsBuilder) -> Opts {
        Opts {
            limit: limit_for(b.api_key is Some),
            api_key: b.api_key,
            level: b.level,
            protocol: b.protocol,
            countries: b.countries,
            last_checked: match b.last_checked {
                Some(l) => Some((l@ / 60) as u64),
                None => None,
            },
            port: b.port,
            time_to_connect: match b.time_to_connect {
                Some(t) => Some(t@),
                None => None,
            },
            cookies: b.cookies,
            connects_to_google: b.connects_to_google,
            https: b.https,
            post: b.post,
            referer: b.referer,
            forwards_user_agent: b.forwards_user_agent,
            format: Format::Json,
        }
    }
}

/// A list of query pairs, as text.
pub open spec fn pairs_view(pairs: Seq<(String, String)>) -> Seq<(Seq<char>, Seq<char>)> {
    pairs.map_values(|p: (String, String)| (p.0@, p.1@))
}

/// `pairs` with `(key, value)` added when there is a value.
pub open spec fn with_opt(
    pairs: Seq<(Seq<char>, Seq<char>)>,
    key: Seq<char>,
    value: Option<Seq<char>>,
) -> Seq<(Seq<char>, Seq<char>)> {
    match value {
        Some(v) => pairs.push((key, v)),
        None => pairs,
    }
}

pub open spec fn digit(d: nat) -> char {
    if d == 0 {
        '0'
    } else if d == 1 {
        '1'
    } else if d == 2 {
        '2'
    } else if d == 3 {
        '3'
    } else if d == 4 {
        '4'
    } else if d == 5 {
        '5'
    } else if d == 6 {
        '6'
    } else if d == 7 {
        '7'
    } else if d == 8 {
        '8'
    } else {
        '9'
    }
}

/// `n` in decimal, without sign or leading zeros.
pub open spec fn decimal(n: nat) -> Seq<char>
    decreases n,
{
    if n < 10 {
        seq![digit(n)]
    } else {
        decimal(n / 10).push(digit(n % 10))
    }
}

pub open spec fn bool_text(b: bool) -> Seq<char> {
    if b {
        "true"@
    } else {
        "false"@
    }
}

pub open spec fn opt_decimal(n: Option<u64>) -> Option<Seq<char>> {
    match n {
        Some(v) => Some(decimal(v as nat)),
        None => None,
    }
}

pub open spec fn opt_bool(b: Option<bool>) -> Option<Seq<char>> {
    match b {
        Some(v) => Some(bool_text(v)),
        None => None,
    }
}

/// The query pairs of the key and of the filters on level, protocol and country.
pub open spec fn query_filters(m: OptsModel) -> Seq<(Seq<char>, Seq<char>)> {
    let s = with_opt(Seq::empty(), "api"@, m.api_key);
    let s = with_opt(
        s,
        "level"@,
        match m.level {
            Some(l) => Some(l.wire()),
            None => None,
        },
    );
    let s = with_opt(
        s,
        "type"@,
        match m.protocol {
            Some(p) => Some(p.wire()),
            None => None,
        },
    );
    let s = if m.countries.len() == 0 {
        s
    } else if m.allow_countries {
        s.push(("country"@, m.countries))
    } else {
        s.push(("not_country"@, m.countries))
    };
    s
}

/// The query pairs of a set of options, each under the name the API gives it, in this order.
/// Unset options and an empty country list are left out.
pub open spec fn query_of(m: OptsModel) -> Seq<(Seq<char>, Seq<char>)> {
    let s = query_filters(m);
    let s = with_opt(s, "last_check"@, opt_decimal(m.last_checked));
    let s = with_opt(
        s,
        "port"@,
        match m.port {
            Some(p) => Some(decimal(p as nat)),
            None => None,
        },
    );
    let s = with_opt(s, "speed"@, opt_decimal(m.time_to_connect));
    let s = with_opt(s, "cookies"@, opt_bool(m.cookies));
    let s = with_opt(s, "google"@, opt_bool(m.connects_to_google));
    let s = with_opt(s, "https"@, opt_bool(m.https));
    let s = with_opt(s, "post"@, opt_bool(m.post));
    let s = with_opt(s, "referer"@, opt_bool(m.referer));
    let s = with_opt(s, "user_agent"@, opt_bool(m.forwards_user_agent));
    let s = s.push(("limit"@, decimal(m.limit.size())));
    s.push(("format"@, "json"@))
}

/// Relies on `ToString` for `u64`, whose `Display` writes the number in decimal with no sign,
/// padding or leading zeros.
#[verifier::external_body]
fn decimal_text(n: u64) -> (r: String)
    ensures
        r@ == decimal(n as nat),
{
    n.to_string()
}

fn bool_string(b: bool) -> (r: String)
    ensures
        r@ == bool_text(b),
{
    if b {
        String::from_str("true")
    } else {
        String::from_str("false")
    }
}

fn push_pair(pairs: &mut Vec<(String, String)>, key: &str, value: String)
    ensures
        pairs_view(final(pairs)@) == pairs_view(old(pairs)@).push((key@, value@)),
{
    pairs.push((String::from_str(key), value));
    assert(pairs_view(pairs@) =~= pairs_view(old(pairs)@).push((key@, value@)));
}

fn push_opt(pairs: &mut Vec<(String, String)>, key: &str, value: Option<String>)
    ensures
        pairs_view(final(pairs)@) == with_opt(pairs_view(old(pairs)@), key@, opt_view(value)),
{
    match value {
        Some(v) => push_pair(pairs, key, v),
        None => {},
    }
}

fn opt_bool_string(b: Option<bool>) -> (r: Option<String>)
    ensures
        opt_view(r) == opt_bool(b),
{
    match b {
        Some(v) => Some(bool_string(v)),
        None => None,
    }
}

fn opt_decimal_string(n: Option<u64>) -> (r: Option<String>)
    ensures
        opt_view(r) == opt_decimal(n),
{
    match n {
        Some(v) => Some(decimal_text(v)),
        None => None,
    }
}

/// The `application/x-www-form-urlencoded` text of a list of key and value pairs.
pub uninterp spec fn form_encoded(pairs: Seq<(Seq<char>, Seq<char>)>) -> Seq<char>;

/// Relies on serde_urlencoded::to_string: a sequence of pairs is written as `key=value` parts
/// joined by `&`, in order, with each key and value form-urlencoded. A sequence of two-element
/// tuples of strings always encodes: the sequence, the pairs and string keys and values are all
/// accepted by its serializer.
#[verifier::external_body]
fn encode_pairs(pairs: &Vec<(String, String)>) -> (r: Option<String>)
    ensures
        r is Some,
        r matches Some(s) ==> s@ == form_encoded(pairs_view(pairs@)),
{
    serde_urlencoded::to_string(pairs).ok()
}

impl Opts {
    /// The query pairs of these options, under the API's names.
    fn filter_pairs(&self) -> (r: Vec<(String, String)>)
        ensures
            pairs_view(r@) == query_filters(self@),
    {
        let mut pairs: Vec<(String, String)> = Vec::new();
        assert(pairs_view(pairs@) =~= Seq::empty());
        let key = match &self.api_key {
            Some(k) => Some(k.clone()),
            None => None,
        };
        push_opt(&mut pairs, "api", key);
        let level = match self.level {
            Some(l) => Some(l.wire_name()),
            None => None,
        };
        push_opt(&mut pairs, "level", level);
        let protocol = match self.protocol {
            Some(p) => Some(p.wire_name()),
            None => None,
        };
        push_opt(&mut pairs, "type", protocol);
        match &self.countries {
            Some(Countries::AllowList(list)) => {
                if !list.as_str().is_empty() {
                    push_pair(&mut pairs, "country", list.clone());
                }
            },
            Some(Countries::BlockList(list)) => {
                if !list.as_str().is_empty() {
                    push_pair(&mut pairs, "not_country", list.clone());
                }
            },
            None => {},
        }
        pairs
    }

    /// The query pairs of these options, under the API's names.
    pub fn query_pairs(&self) -> (r: Vec<(String, String)>)
        ensures
            pairs_view(r@) == query_of(self@),
    {
        let mut pairs = self.filter_pairs();
        push_opt(&mut pairs, "last_check", opt_decimal_string(self.last_checked));
        let port = match self.port {
            Some(p) => Some(decimal_text(p.get() as u64)),
            None => None,
        };
        push_opt(&mut pairs, "port", port);
        push_opt(&mut pairs, "speed", opt_decimal_string(self.time_to_connect));
        push_opt(&mut pairs, "cookies", opt_bool_string(self.cookies));
        push_opt(&mut pairs, "google", opt_bool_string(self.connects_to_google));
        push_opt(&mut pairs, "https", opt_bool_string(self.https));
        push_opt(&mut pairs, "post", opt_bool_string(self.post));
        push_opt(&mut pairs, "referer", opt_bool_string(self.referer));
        push_opt(&mut pairs, "user_agent", opt_bool_string(self.forwards_user_agent));
        push_pair(&mut pairs, "limit", decimal_text(self.limit.page_size() as u64));
        push_pair(&mut pairs, "format", String::from_str("json"));
        pairs
    }

    /// The query string of a request with these options.
    pub fn query_string(&self) -> (r: String)
        ensures
            r@ == form_encoded(query_of(self@)),
    {
        let pairs = self.query_pairs();
        let encoded = encode_pairs(&pairs);
        encoded.unwrap()
    }
}

/// What `Opts::from` gives: the options that the builder finalizes to.
pub proof fn lemma_from_builder(b: OptsBuilder)
    ensures
        <Opts as vstd::std_specs::convert::FromSpec<OptsBuilder>>::from_spec(b)@ == opts_from(b@),
{
}

} // verus!
