use crossref::error::Error;
use crossref::query::{
    Component, CrossrefQuery, CrossrefQueryParam, CrossrefRoute, FundersFilter, Order,
    ParamFragment, Query, ResourceComponent, ResultControl, Sort, Visibility,
};

fn works_query(filters: Vec<FundersFilter>) -> Query<FundersFilter> {
    Query {
        resource: ResourceComponent::Single(Component::Works),
        filters,
        sort: None,
        order: None,
        control: None,
    }
}

#[test]
fn filter_fragment_with_value() {
    let f = FundersFilter::Location("germany".to_string());
    assert_eq!(f.key(), "location");
    assert_eq!(f.value(), Some("germany".to_string()));
    assert_eq!(f.fragment(), "location:germany");
}

#[test]
fn filter_value_splits_back_into_fragments() {
    let filters = vec![
        FundersFilter::Location("germany".to_string()),
        FundersFilter::Location("france".to_string()),
        FundersFilter::Location("spain".to_string()),
    ];
    assert_eq!(filters.param_key(), "filter");
    let value = filters.param_value().unwrap();
    assert_eq!(value, "location:germany,location:france,location:spain");
    let pieces: Vec<&str> = value.split(',').collect();
    let fragments: Vec<String> = filters.iter().map(|f| f.fragment()).collect();
    assert_eq!(pieces, fragments);
    assert_eq!(filters.param(), "filter=location:germany,location:france,location:spain");
}

#[test]
fn empty_filters_render_no_filter_key() {
    let mut q = works_query(Vec::new());
    q.sort = Some(Sort::Score);
    q.control = Some(ResultControl::Offset(5));
    let route = q.route();
    assert_eq!(route, "/works?sort=score&offset=5");
    assert!(!route.contains("filter"));
}

#[test]
fn no_parameters_no_question_mark() {
    let q = works_query(Vec::new());
    assert_eq!(q.route(), "/works");
    assert_eq!(q.to_url("https://api.crossref.org"), "https://api.crossref.org/works");
}

#[test]
fn parameters_in_canonical_order() {
    let q = Query {
        resource: ResourceComponent::Single(Component::Funders),
        filters: vec![FundersFilter::Location("germany".to_string())],
        sort: Some(Sort::PublishedPrint),
        order: Some(Order::Desc),
        control: Some(ResultControl::Rows(20)),
    };
    assert_eq!(
        q.to_url("https://api.crossref.org"),
        "https://api.crossref.org/funders?filter=location:germany&sort=published-print&order=desc&rows=20"
    );
    match q.resource_component() {
        ResourceComponent::Single(c) => assert_eq!(c, Component::Funders),
        _ => panic!("expected a single component"),
    }
}

#[test]
fn rows_offset_renders_as_one_composite_parameter() {
    let c = ResultControl::RowsOffset { rows: 20, offset: 40 };
    assert_eq!(c.param_key(), "rows=20");
    assert_eq!(c.param_value(), Some("offset=40".to_string()));
    assert_eq!(c.param(), "rows=20=offset=40");
    assert!(!c.param().contains('&'));
}

#[test]
fn sample_renders_bare_key() {
    let c = ResultControl::Sample;
    assert_eq!(c.param_key(), "sample");
    assert_eq!(c.param_value(), None);
    assert_eq!(c.param(), "sample");
}

#[test]
fn rows_and_offset_alone() {
    assert_eq!(ResultControl::Rows(0).param(), "rows=0");
    assert_eq!(ResultControl::Rows(1000).param(), "rows=1000");
    assert_eq!(ResultControl::Offset(123456789).param(), "offset=123456789");
    assert_eq!(ResultControl::Rows(usize::MAX).param(), format!("rows={}", usize::MAX));
}

#[test]
fn sort_and_order_params() {
    assert_eq!(Sort::IsReferencedByCount.param(), "sort=is-reference-by-count");
    assert_eq!(Sort::ReferenceCount.param(), "sort=reference-count");
    assert_eq!(Sort::Updated.as_str(), "updated");
    assert_eq!(Order::Asc.param(), "order=asc");
    assert_eq!(Order::Desc.as_str(), "desc");
    assert_eq!(Visibility::Limited.as_str(), "limited");
}

#[test]
fn free_pair_param() {
    let p = ("query".to_string(), "hello+world".to_string());
    assert_eq!(p.param(), "query=hello+world");
}

#[test]
fn combined_resource_route() {
    let r = ResourceComponent::Combined {
        primary: Component::Funders,
        identifier: "10.13039/100000001".to_string(),
    };
    assert_eq!(r.route(), "/funders/10.13039/100000001/works");
}

#[test]
fn single_resource_routes() {
    assert_eq!(ResourceComponent::Single(Component::Journals).route(), "/journals");
    assert_eq!(Component::Prefixes.route(), "/prefixes");
}

#[test]
fn component_parse_round_trip() {
    let all = [
        Component::Works,
        Component::Funders,
        Component::Prefixes,
        Component::Members,
        Component::Types,
        Component::Journals,
    ];
    for c in all {
        assert_eq!(Component::parse(c.as_str()), Ok(c));
        assert_eq!(c.as_str().parse::<Component>(), Ok(c));
    }
}

#[test]
fn component_parse_unknown() {
    assert_eq!(
        Component::parse("authors"),
        Err(Error::InvalidComponentName { name: "authors".to_string() })
    );
    assert_eq!(
        Component::parse("Works"),
        Err(Error::InvalidComponentName { name: "Works".to_string() })
    );
    assert_eq!(Component::parse(""), Err(Error::InvalidComponentName { name: String::new() }));
}
