use crate::error::Error;
use crate::text::{decimal, decimal_string, join, lemma_split_join, push_char, split, str_eq};
use vstd::prelude::*;

verus! {

/// `key` alone, or `key`, `sep` and `value`.
pub open spec fn render(key: Seq<char>, value: Option<Seq<char>>, sep: char) -> Seq<char> {
    match value {
        Some(v) => key.push(sep) + v,
        None => key,
    }
}

/// Appends `sep` and `value` to `key` when a value is present.
fn render_string(key: String, value: Option<String>, sep: char) -> (r: String)
    ensures
        r@ == render(key@, value.deep_view(), sep),
{
    match value {
        Some(v) => {
            let mut r = key;
            push_char(&mut r, sep);
            r.append(v.as_str());
            r
        },
        None => key,
    }
}

/// A piece of the aggregate `filter` parameter: a key and an optional value.
pub trait ParamFragment {
    spec fn key_spec(&self) -> Seq<char>;

    spec fn value_spec(&self) -> Option<Seq<char>>;

    fn key(&self) -> (r: String)
        ensures
            r@ == self.key_spec(),
    ;

    fn value(&self) -> (r: Option<String>)
        ensures
            r.deep_view() == self.value_spec(),
    ;

    /// `key:value`, or the key alone.
    fn fragment(&self) -> (r: String)
        ensures
            r@ == render(self.key_spec(), self.value_spec(), ':'),
    {
        render_string(self.key(), self.value(), ':')
    }
}

/// The rendered fragment of a filter.
pub open spec fn fragment_of<F: ParamFragment + ?Sized>(f: &F) -> Seq<char> {
    render(f.key_spec(), f.value_spec(), ':')
}

/// A filter of some route; filters of one request share the `filter` parameter.
pub trait Filter: ParamFragment {

}

/// A top level parameter of the query string.
pub trait CrossrefQueryParam {
    spec fn param_key_spec(&self) -> Seq<char>;

    spec fn param_value_spec(&self) -> Option<Seq<char>>;

    fn param_key(&self) -> (r: String)
        ensures
            r@ == self.param_key_spec(),
    ;

    fn param_value(&self) -> (r: Option<String>)
        ensures
            r.deep_view() == self.param_value_spec(),
    ;

    /// `key=value`, or the key alone.
    fn param(&self) -> (r: String)
        ensures
            r@ == render(self.param_key_spec(), self.param_value_spec(), '='),
    {
        render_string(self.param_key(), self.param_value(), '=')
    }
}

/// The rendered form of a query parameter.
pub open spec fn param_of<P: CrossrefQueryParam + ?Sized>(p: &P) -> Seq<char> {
    render(p.param_key_spec(), p.param_value_spec(), '=')
}

/// Something that renders to a path, or a path with a query string.
pub trait CrossrefRoute {
    spec fn route_spec(&self) -> Seq<char>;

    fn route(&self) -> (r: String)
        ensures
            r@ == self.route_spec(),
    ;
}

/// Filters supported for the /funders route.
#[derive(Debug, PartialEq, Eq, Clone)]
pub enum FundersFilter {
    /// Funders located in the given country.
    Location(String),
}

impl ParamFragment for FundersFilter {
    open spec fn key_spec(&self) -> Seq<char> {
        "location"@
    }

    open spec fn value_spec(&self) -> Option<Seq<char>> {
        match self {
            FundersFilter::Location(c) => Some(c@),
        }
    }

    fn key(&self) -> (r: String) {
        "location".to_owned()
    }

    fn value(&self) -> (r: Option<String>) {
        match self {
            FundersFilter::Location(c) => Some(c.clone()),
        }
    }
}

impl Filter for FundersFilter {

}

/// The filters of one request, rendered as one `filter` parameter whose value
/// is the fragments in order, separated by `,`.
impl<T: Filter> CrossrefQueryParam for Vec<T> {
    open spec fn param_key_spec(&self) -> Seq<char> {
        "filter"@
    }

    open spec fn param_value_spec(&self) -> Option<Seq<char>> {
        Some(join(fragments(self@), ','))
    }

    fn param_key(&self) -> (r: String) {
        "filter".to_owned()
    }

    fn param_value(&self) -> (r: Option<String>) {
        let mut parts: Vec<String> = Vec::new();
        let mut i: usize = 0;
        while i < self.len()
            invariant
                i <= self@.len(),
                parts@.map_values(|p: String| p@) == fragments(self@.take(i as int)),
            decreases self@.len() - i,
        {
            let f = self[i].fragment();
            proof {
                assert(self@.take(i + 1) =~= self@.take(i as int).push(self@[i as int]));
                assert(fragments(self@.take(i + 1)) =~= fragments(self@.take(i as int)).push(f@));
            }
            let ghost old_parts = parts@;
            parts.push(f);
            proof {
                assert(parts@.map_values(|p: String| p@) =~= old_parts.map_values(|p: String| p@).push(f@));
            }
            i = i + 1;
        }
        assert(self@.take(i as int) =~= self@);
        Some(crate::text::join_strings(&parts, ','))
    }
}

/// The fragments of a sequence of filters, in order.
pub open spec fn fragments<T: ParamFragment>(fs: Seq<T>) -> Seq<Seq<char>> {
    fs.map_values(|f: T| fragment_of(&f))
}

/// A free key and value pair.
impl CrossrefQueryParam for (String, String) {
    open spec fn param_key_spec(&self) -> Seq<char> {
        self.0@
    }

    open spec fn param_value_spec(&self) -> Option<Seq<char>> {
        Some(self.1@)
    }

    fn param_key(&self) -> (r: String) {
        self.0.clone()
    }

    fn param_value(&self) -> (r: Option<String>) {
        Some(self.1.clone())
    }
}

/// Access level of a member's metadata.
#[derive(Debug, PartialEq, Eq, Structural, Clone, Copy)]
pub enum Visibility {
    Open,
    Limited,
    Closed,
}

impl Visibility {
    pub open spec fn spec_str(&self) -> Seq<char> {
        match self {
            Visibility::Open => "open"@,
            Visibility::Limited => "limited"@,
            Visibility::Closed => "closed"@,
        }
    }

    pub fn as_str(&self) -> (r: &'static str)
        ensures
            r@ == self.spec_str(),
    {
        match self {
            Visibility::Open => "open",
            Visibility::Limited => "limited",
            Visibility::Closed => "closed",
        }
    }
}

/// Direction in which results are sorted.
#[derive(Debug, PartialEq, Eq, Structural, Clone, Copy)]
pub enum Order {
    /// Ascending order.
    Asc,
    /// Descending order.
    Desc,
}

impl Order {
    pub open spec fn spec_str(&self) -> Seq<char> {
        match self {
            Order::Asc => "asc"@,
            Order::Desc => "desc"@,
        }
    }

    pub fn as_str(&self) -> (r: &'static str)
        ensures
            r@ == self.spec_str(),
    {
        match self {
            Order::Asc => "asc",
            Order::Desc => "desc",
        }
    }
}

/// Rendered as `order=asc` or `order=desc`.
impl CrossrefQueryParam for Order {
    open spec fn param_key_spec(&self) -> Seq<char> {
        "order"@
    }

    open spec fn param_value_spec(&self) -> Option<Seq<char>> {
        Some(self.spec_str())
    }

    fn param_key(&self) -> (r: String) {
        "order".to_owned()
    }

    fn param_value(&self) -> (r: Option<String>) {
        Some(self.as_str().to_owned())
    }
}

/// The field by which a list of results is sorted.
#[derive(Debug, PartialEq, Eq, Structural, Clone, Copy)]
pub enum Sort {
    /// Relevance score.
    Score,
    /// Most recent change to the metadata.
    Updated,
    /// Most recent deposit.
    Deposited,
    /// Most recent index.
    Indexed,
    /// Publication date.
    Published,
    /// Print publication date.
    PublishedPrint,
    /// Online publication date.
    PublishedOnline,
    /// Issued date, the earliest known publication date.
    Issued,
    /// Number of times the work is referenced by other works.
    IsReferencedByCount,
    /// Number of references the work holds.
    ReferenceCount,
}

impl Sort {
    pub open spec fn spec_str(&self) -> Seq<char> {
        match self {
            Sort::Score => "score"@,
            Sort::Updated => "updated"@,
            Sort::Deposited => "deposited"@,
            Sort::Indexed => "indexed"@,
            Sort::Published => "published"@,
            Sort::PublishedPrint => "published-print"@,
            Sort::PublishedOnline => "published-online"@,
            Sort::Issued => "issued"@,
            Sort::IsReferencedByCount => "is-reference-by-count"@,
            Sort::ReferenceCount => "reference-count"@,
        }
    }

    pub fn as_str(&self) -> (r: &'static str)
        ensures
            r@ == self.spec_str(),
    {
        match self {
            Sort::Score => "score",
            Sort::Updated => "updated",
            Sort::Deposited => "deposited",
            Sort::Indexed => "indexed",
            Sort::Published => "published",
            Sort::PublishedPrint => "published-print",
            Sort::PublishedOnline => "published-online",
            Sort::Issued => "issued",
            Sort::IsReferencedByCount => "is-reference-by-count",
            Sort::ReferenceCount => "reference-count",
        }
    }
}

/// Rendered as `sort=<field>`.
impl CrossrefQueryParam for Sort {
    open spec fn param_key_spec(&self) -> Seq<char> {
        "sort"@
    }

    open spec fn param_value_spec(&self) -> Option<Seq<char>> {
        Some(self.spec_str())
    }

    fn param_key(&self) -> (r: String) {
        "sort".to_owned()
    }

    fn param_value(&self) -> (r: Option<String>) {
        Some(self.as_str().to_owned())
    }
}

/// Pagination: exactly one mode per request.
#[derive(Debug, PartialEq, Eq, Structural, Clone, Copy)]
pub enum ResultControl {
    /// At most this many rows.
    Rows(usize),
    /// Skip this many rows.
    Offset(usize),
    /// Both; the offset rides as the value of a key that carries the rows.
    RowsOffset { rows: usize, offset: usize },
    /// A random sample of results.
    Sample,
}

/// `rows=n`, `offset=n`, `rows=<rows>` with value `offset=<offset>`, or the
/// bare key `sample`.
impl CrossrefQueryParam for ResultControl {
    open spec fn param_key_spec(&self) -> Seq<char> {
        match self {
            ResultControl::Rows(_) => "rows"@,
            ResultControl::Offset(_) => "offset"@,
            ResultControl::RowsOffset { rows, .. } => "rows"@.push('=') + decimal(*rows as nat),
            ResultControl::Sample => "sample"@,
        }
    }

    open spec fn param_value_spec(&self) -> Option<Seq<char>> {
        match self {
            ResultControl::Rows(n) => Some(decimal(*n as nat)),
            ResultControl::Offset(n) => Some(decimal(*n as nat)),
            ResultControl::RowsOffset { offset, .. } => Some(
                "offset"@.push('=') + decimal(*offset as nat),
            ),
            ResultControl::Sample => None,
        }
    }

    fn param_key(&self) -> (r: String) {
        match self {
            ResultControl::Rows(_) => "rows".to_owned(),
            ResultControl::Offset(_) => "offset".to_owned(),
            ResultControl::RowsOffset { rows, .. } => {
                let mut k = "rows".to_owned();
                push_char(&mut k, '=');
                k.append(decimal_string(*rows).as_str());
                k
            },
            ResultControl::Sample => "sample".to_owned(),
        }
    }

    fn param_value(&self) -> (r: Option<String>) {
        match self {
            ResultControl::Rows(n) => Some(decimal_string(*n)),
            ResultControl::Offset(n) => Some(decimal_string(*n)),
            ResultControl::RowsOffset { offset, .. } => {
                let mut v = "offset".to_owned();
                push_char(&mut v, '=');
                v.append(decimal_string(*offset).as_str());
                Some(v)
            },
            ResultControl::Sample => None,
        }
    }
}

/// The top level resources of the API.
#[derive(Debug, PartialEq, Eq, Structural, Clone, Copy)]
pub enum Component {
    /// All works: articles, proceedings, books, components and so on.
    Works,
    /// All funders of the funder registry.
    Funders,
    /// All DOI prefixes.
    Prefixes,
    /// All members, mostly publishers.
    Members,
    /// All work types.
    Types,
    /// All journals.
    Journals,
}

impl Component {
    pub open spec fn spec_str(&self) -> Seq<char> {
        match self {
            Component::Works => "works"@,
            Component::Funders => "funders"@,
            Component::Prefixes => "prefixes"@,
            Component::Members => "members"@,
            Component::Types => "types"@,
            Component::Journals => "journals"@,
        }
    }

    pub fn as_str(&self) -> (r: &'static str)
        ensures
            r@ == self.spec_str(),
    {
        match self {
            Component::Works => "works",
            Component::Funders => "funders",
            Component::Prefixes => "prefixes",
            Component::Members => "members",
            Component::Types => "types",
            Component::Journals => "journals",
        }
    }

    /// The component at a position of the declaration order, `k < 6`.
    pub open spec fn spec_nth(k: int) -> Component {
        if k == 0 { Component::Works }
        else if k == 1 { Component::Funders }
        else if k == 2 { Component::Prefixes }
        else if k == 3 { Component::Members }
        else if k == 4 { Component::Types }
        else { Component::Journals }
    }

    pub open spec fn spec_index(&self) -> int {
        match self {
            Component::Works => 0,
            Component::Funders => 1,
            Component::Prefixes => 2,
            Component::Members => 3,
            Component::Types => 4,
            Component::Journals => 5,
        }
    }

    /// The component whose path segment is `s`, if any.
    pub open spec fn spec_named(s: Seq<char>) -> Option<Component> {
        if exists|c: Component| c.spec_str() == s {
            Some(choose|c: Component| c.spec_str() == s)
        } else {
            None
        }
    }

    fn nth(k: usize) -> (r: Component)
        requires
            k < 6,
        ensures
            r == Component::spec_nth(k as int),
    {
        if k == 0 { Component::Works }
        else if k == 1 { Component::Funders }
        else if k == 2 { Component::Prefixes }
        else if k == 3 { Component::Members }
        else if k == 4 { Component::Types }
        else { Component::Journals }
    }

    /// Reads a component from its path segment.
    pub fn parse(s: &str) -> (r: Result<Component, Error>)
        ensures
            r is Ok <==> Component::spec_named(s@) is Some,
            match r {
                Ok(c) => c.spec_str() == s@ && Component::spec_named(s@) == Some(c),
                Err(e) => (forall|c: Component| c.spec_str() != s@) && (e
                    matches Error::InvalidComponentName { name } && name@ == s@),
            },
    {
        let mut k: usize = 0;
        while k < 6
            invariant
                k <= 6,
                forall|j: int| 0 <= j < k ==> Component::spec_nth(j).spec_str() != s@,
            decreases 6 - k,
        {
            let c = Component::nth(k);
            if str_eq(c.as_str(), s) {
                proof {
                    lemma_component_round_trip(c);
                }
                return Ok(c);
            }
            k = k + 1;
        }
        assert forall|c: Component| c.spec_str() != s@ by {
            assert(Component::spec_nth(c.spec_index()) == c);
        }
        Err(Error::InvalidComponentName { name: s.to_owned() })
    }
}

impl std::str::FromStr for Component {
    type Err = Error;

    fn from_str(s: &str) -> Result<Component, Error> {
        Component::parse(s)
    }
}

/// Rendered as `/<component>`.
impl CrossrefRoute for Component {
    open spec fn route_spec(&self) -> Seq<char> {
        seq!['/'] + self.spec_str()
    }

    fn route(&self) -> (r: String) {
        let mut r = String::new();
        push_char(&mut r, '/');
        r.append(self.as_str());
        r
    }
}

/// The resource that a request addresses.
#[derive(Debug, Clone)]
pub enum ResourceComponent {
    /// A single top level component.
    Single(Component),
    /// The works of one item of a component: `/<primary>/<identifier>/works`.
    Combined { primary: Component, identifier: String },
}

/// A copy of a resource selector.
fn copy_resource(r: &ResourceComponent) -> (c: ResourceComponent)
    ensures
        c == *r,
{
    match r {
        ResourceComponent::Single(k) => ResourceComponent::Single(*k),
        ResourceComponent::Combined { primary, identifier } => ResourceComponent::Combined {
            primary: *primary,
            identifier: identifier.clone(),
        },
    }
}

/// `/<component>`, or `/<primary>/<identifier>/works`; the identifier is
/// passed through as it is.
impl CrossrefRoute for ResourceComponent {
    open spec fn route_spec(&self) -> Seq<char> {
        match self {
            ResourceComponent::Single(c) => c.route_spec(),
            ResourceComponent::Combined { primary, identifier } => primary.route_spec().push('/')
                + identifier@ + Component::Works.route_spec(),
        }
    }

    fn route(&self) -> (r: String) {
        match self {
            ResourceComponent::Single(c) => c.route(),
            ResourceComponent::Combined { primary, identifier } => {
                let mut r = primary.route();
                push_char(&mut r, '/');
                r.append(identifier.as_str());
                r.append(Component::Works.route().as_str());
                r
            },
        }
    }
}

/// A request that can be turned into a URL below a base path.
pub trait CrossrefQuery: CrossrefRoute {
    spec fn resource_spec(&self) -> ResourceComponent;

    /// The resource that the request addresses.
    fn resource_component(&self) -> (r: ResourceComponent)
        ensures
            r == self.resource_spec(),
    ;

    /// The base path followed by the route.
    fn to_url(&self, base_path: &str) -> (r: String)
        ensures
            r@ == base_path@ + self.route_spec(),
    {
        let mut r = base_path.to_owned();
        r.append(self.route().as_str());
        r
    }
}

/// A complete request: a resource, its filters, and the optional sort field,
/// sort order and pagination mode.
pub struct Query<F: Filter> {
    pub resource: ResourceComponent,
    pub filters: Vec<F>,
    pub sort: Option<Sort>,
    pub order: Option<Order>,
    pub control: Option<ResultControl>,
}

/// The one-element sequence of `x`, or the empty one.
pub open spec fn opt_seq<A>(x: Option<A>) -> Seq<A> {
    match x {
        Some(a) => seq![a],
        None => Seq::empty(),
    }
}

/// The rendered parameter, if there is one.
pub open spec fn opt_param<P: CrossrefQueryParam>(x: Option<P>) -> Seq<Seq<char>> {
    match x {
        Some(p) => seq![param_of(&p)],
        None => Seq::empty(),
    }
}

/// The key of the parameter, if there is one.
pub open spec fn opt_key<P: CrossrefQueryParam>(x: Option<P>) -> Seq<Seq<char>> {
    match x {
        Some(p) => seq![p.param_key_spec()],
        None => Seq::empty(),
    }
}

impl<F: Filter> Query<F> {
    /// The rendered parameters in their fixed order: the filters (when
    /// there are any), then sort, order and pagination.
    pub open spec fn params_spec(&self) -> Seq<Seq<char>> {
        opt_seq(if self.filters@.len() > 0 { Some(param_of(&self.filters)) } else { None })
            + opt_param(self.sort)
            + opt_param(self.order)
            + opt_param(self.control)
    }

    /// The keys of the rendered parameters, in the same order.
    pub open spec fn keys_spec(&self) -> Seq<Seq<char>> {
        opt_seq(if self.filters@.len() > 0 { Some(self.filters.param_key_spec()) } else { None })
            + opt_key(self.sort)
            + opt_key(self.order)
            + opt_key(self.control)
    }

    /// The rendered parameters, in their fixed order.
    pub fn params(&self) -> (r: Vec<String>)
        ensures
            r@.map_values(|p: String| p@) == self.params_spec(),
    {
        let mut r: Vec<String> = Vec::new();
        let ghost mut acc: Seq<Seq<char>> = Seq::empty();
        if self.filters.len() > 0 {
            r.push(self.filters.param());
        }
        proof {
            acc = opt_seq(if self.filters@.len() > 0 { Some(param_of(&self.filters)) } else { None });
            assert(r@.map_values(|p: String| p@) =~= acc);
        }
        match self.sort {
            Some(p) => r.push(p.param()),
            None => {},
        }
        proof {
            acc = acc + opt_param(self.sort);
            assert(r@.map_values(|p: String| p@) =~= acc);
        }
        match self.order {
            Some(p) => r.push(p.param()),
            None => {},
        }
        proof {
            acc = acc + opt_param(self.order);
            assert(r@.map_values(|p: String| p@) =~= acc);
        }
        match self.control {
            Some(p) => r.push(p.param()),
            None => {},
        }
        proof {
            acc = acc + opt_param(self.control);
            assert(r@.map_values(|p: String| p@) =~= acc);
        }
        r
    }
}

/// The resource path, then `?` and the parameters joined by `&`; with no
/// parameters the `?` is left out.
impl<F: Filter> CrossrefRoute for Query<F> {
    open spec fn route_spec(&self) -> Seq<char> {
        if self.params_spec().len() == 0 {
            self.resource.route_spec()
        } else {
            self.resource.route_spec().push('?') + join(self.params_spec(), '&')
        }
    }

    fn route(&self) -> (r: String) {
        let mut r = self.resource.route();
        let ps = self.params();
        if ps.len() > 0 {
            push_char(&mut r, '?');
            r.append(crate::text::join_strings(&ps, '&').as_str());
        }
        r
    }
}

impl<F: Filter> CrossrefQuery for Query<F> {
    open spec fn resource_spec(&self) -> ResourceComponent {
        self.resource
    }

    fn resource_component(&self) -> (r: ResourceComponent) {
        copy_resource(&self.resource)
    }
}

/// Distinct components have distinct path segments.
pub proof fn lemma_component_str_injective(a: Component, b: Component)
    requires
        a.spec_str() == b.spec_str(),
    ensures
        a == b,
{
    reveal_strlit("works");
    reveal_strlit("funders");
    reveal_strlit("prefixes");
    reveal_strlit("members");
    reveal_strlit("types");
    reveal_strlit("journals");
    let (x, y) = (a.spec_str(), b.spec_str());
    assert(x.len() == y.len() && x[0] == y[0]);
    match a {
        Component::Works => assert(x =~= seq!['w', 'o', 'r', 'k', 's']),
        Component::Funders => assert(x =~= seq!['f', 'u', 'n', 'd', 'e', 'r', 's']),
        Component::Prefixes => assert(x =~= seq!['p', 'r', 'e', 'f', 'i', 'x', 'e', 's']),
        Component::Members => assert(x =~= seq!['m', 'e', 'm', 'b', 'e', 'r', 's']),
        Component::Types => assert(x =~= seq!['t', 'y', 'p', 'e', 's']),
        Component::Journals => assert(x =~= seq!['j', 'o', 'u', 'r', 'n', 'a', 'l', 's']),
    }
    match b {
        Component::Works => assert(y =~= seq!['w', 'o', 'r', 'k', 's']),
        Component::Funders => assert(y =~= seq!['f', 'u', 'n', 'd', 'e', 'r', 's']),
        Component::Prefixes => assert(y =~= seq!['p', 'r', 'e', 'f', 'i', 'x', 'e', 's']),
        Component::Members => assert(y =~= seq!['m', 'e', 'm', 'b', 'e', 'r', 's']),
        Component::Types => assert(y =~= seq!['t', 'y', 'p', 'e', 's']),
        Component::Journals => assert(y =~= seq!['j', 'o', 'u', 'r', 'n', 'a', 'l', 's']),
    }
}

/// Reading the path segment of a component gives that component back.
pub proof fn lemma_component_round_trip(k: Component)
    ensures
        Component::spec_named(k.spec_str()) == Some(k),
{
    let c = choose|c: Component| c.spec_str() == k.spec_str();
    lemma_component_str_injective(c, k);
}

/// Splitting the value of the `filter` parameter on `,` gives back each
/// filter's fragment, in the order the filters were given, as long as no
/// fragment holds a `,` itself.
pub proof fn lemma_filter_value_splits<F: Filter>(filters: Vec<F>)
    requires
        filters@.len() > 0,
        forall|i: int| 0 <= i < filters@.len() ==> !fragment_of(&filters@[i]).contains(','),
    ensures
        param_of(&filters) == "filter"@.push('=') + filters.param_value_spec().unwrap(),
        split(filters.param_value_spec().unwrap(), ',') == fragments(filters@),
{
    let fs = fragments(filters@);
    assert forall|i: int| 0 <= i < fs.len() implies !(#[trigger] fs[i]).contains(',') by {
        assert(fs[i] == fragment_of(&filters@[i]));
    }
    lemma_split_join(fs, ',');
}

/// Without filters a query has no `filter` parameter: its parameters are the
/// sort field, sort order and pagination alone, and no key is `filter`.
pub proof fn lemma_no_filters_no_filter_key<F: Filter>(q: Query<F>)
    requires
        q.filters@.len() == 0,
    ensures
        q.params_spec() == opt_param(q.sort) + opt_param(q.order) + opt_param(q.control),
        !q.keys_spec().contains("filter"@),
{
    reveal_strlit("filter");
    reveal_strlit("sort");
    reveal_strlit("order");
    reveal_strlit("rows");
    reveal_strlit("offset");
    reveal_strlit("sample");
    assert(q.params_spec() =~= opt_param(q.sort) + opt_param(q.order) + opt_param(q.control));
    let ks = q.keys_spec();
    assert(ks =~= opt_key(q.sort) + opt_key(q.order) + opt_key(q.control));
    assert forall|i: int| 0 <= i < ks.len() implies (#[trigger] ks[i])[0] != 'f' by {
        match q.control {
            Some(c) => {
                assert(c.param_key_spec()[0] == 'r' || c.param_key_spec()[0] == 'o'
                    || c.param_key_spec()[0] == 's');
            },
            None => {},
        }
    }
    if ks.contains("filter"@) {
        let i = choose|i: int| 0 <= i < ks.len() && ks[i] == "filter"@;
        assert(ks[i][0] == 'f');
    }
}

} // verus!
