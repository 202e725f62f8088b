use heliotrope::{SolrQuery, SortClause, SortOrder, ToUrlParam};

#[test]
fn query_only_query_to_pairs() {
    let query = SolrQuery::new("abba");
    assert_eq!(query.to_pairs(), vec!(("wt".to_string(), "json".to_string()),
                                      ("q".to_string(), "abba".to_string())));
}

#[test]
fn query_and_field_with_add_field_to_pairs() {
    let mut query = SolrQuery::new("abba");
    query = query.add_field("score");
    assert_eq!(query.to_pairs(),
               vec!(("wt".to_string(), "json".to_string()),
                    ("q".to_string(), "abba".to_string()),
                    ("fl".to_string(), "score".to_string())));
}

#[test]
fn query_and_many_fields_with_add_field_to_pairs() {
    let mut query = SolrQuery::new("abba");
    query = query.add_field("*");
    query = query.add_field("score");
    assert_eq!(query.to_pairs(),
               vec!(("wt".to_string(), "json".to_string()),
                    ("q".to_string(), "abba".to_string()),
                    ("fl".to_string(), "*, score".to_string())));
}

#[test]
fn query_and_many_fields_with_set_fields_to_pairs() {
    let mut query = SolrQuery::new("abba");
    query = query.set_fields(&["id", "title"]);
    assert_eq!(query.to_pairs(),
               vec!(("wt".to_string(), "json".to_string()),
                    ("q".to_string(), "abba".to_string()),
                    ("fl".to_string(), "id, title".to_string())));
}

#[test]
fn query_and_filter_with_add_filter_to_pairs() {
    let mut query = SolrQuery::new("abba");
    query = query.add_filter("type:Person");
    assert_eq!(query.to_pairs(),
               vec!(("wt".to_string(), "json".to_string()),
                    ("q".to_string(), "abba".to_string()),
                    ("fq".to_string(), "type:Person".to_string())));
}

#[test]
fn query_and_many_filters_with_add_filter_to_pairs() {
    let mut query = SolrQuery::new("abba");
    query = query.add_filter("type:Person");
    query = query.add_filter("class:ActiveRecord");
    assert_eq!(query.to_pairs(),
               vec!(("wt".to_string(), "json".to_string()),
                    ("q".to_string(), "abba".to_string()),
                    ("fq".to_string(), "type:Person".to_string()),
                    ("fq".to_string(), "class:ActiveRecord".to_string())));
}

#[test]
fn query_and_many_filters_with_set_filters_to_pairs() {
    let mut query = SolrQuery::new("abba");
    query = query.set_filters(&["type:Person", "class:Person"]);
    assert_eq!(query.to_pairs(),
               vec!(("wt".to_string(), "json".to_string()),
                    ("q".to_string(), "abba".to_string()),
                    ("fq".to_string(), "type:Person".to_string()),
                    ("fq".to_string(), "class:Person".to_string())));
}

#[test]
fn query_and_sort_with_add_sort_to_pairs() {
    let mut query = SolrQuery::new("abba");
    query = query.add_sort("age", SortOrder::Descending);
    assert_eq!(query.to_pairs(),
               vec!(("wt".to_string(), "json".to_string()),
                    ("q".to_string(), "abba".to_string()),
                    ("sort".to_string(), "age desc".to_string())));
}

#[test]
fn query_and_many_sorts_with_add_sort_to_pairs() {
    let mut query = SolrQuery::new("abba");
    query = query.add_sort("age", SortOrder::Descending);
    query = query.add_sort("balance", SortOrder::Ascending);
    assert_eq!(query.to_pairs(),
               vec!(("wt".to_string(), "json".to_string()),
                    ("q".to_string(), "abba".to_string()),
                    ("sort".to_string(), "age desc, balance asc".to_string())));
}

#[test]
fn query_and_many_sorts_with_set_sorts_to_pairs() {
    let mut query = SolrQuery::new("abba");
    let sorts = vec!(SortClause {field: "age".to_string(), order: SortOrder::Descending},
                     SortClause {field: "balance".to_string(), order: SortOrder::Ascending});
    query = query.set_sorts(&sorts);
    assert_eq!(query.to_pairs(),
               vec!(("wt".to_string(), "json".to_string()),
                    ("q".to_string(), "abba".to_string()),
                    ("sort".to_string(), "age desc, balance asc".to_string())));
}

#[test]
fn query_and_default_start() {
    let query = SolrQuery::new("abba").start(0);
    assert_eq!(query.to_pairs(),
               vec!(("wt".to_string(), "json".to_string()),
                    ("q".to_string(), "abba".to_string())));
}

#[test]
fn query_and_non_default_start() {
    let query = SolrQuery::new("abba").start(50);
    assert_eq!(query.to_pairs(),
               vec!(("wt".to_string(), "json".to_string()),
                    ("q".to_string(), "abba".to_string()),
                    ("start".to_string(), "50".to_string())));
}

#[test]
fn query_and_default_rows() {
    let query = SolrQuery::new("abba").rows(10);
    assert_eq!(query.to_pairs(),
               vec!(("wt".to_string(), "json".to_string()),
                    ("q".to_string(), "abba".to_string())));
}

#[test]
fn query_and_non_default_rows() {
    let query = SolrQuery::new("abba").rows(25);
    assert_eq!(query.to_pairs(),
               vec!(("wt".to_string(), "json".to_string()),
                    ("q".to_string(), "abba".to_string()),
                    ("rows".to_string(), "25".to_string())));
}

#[test]
fn query_and_custom_start_and_rows() {
    let query = SolrQuery::new("abba").start(125).rows(25);
    assert_eq!(query.to_pairs(),
               vec!(("wt".to_string(), "json".to_string()),
                    ("q".to_string(), "abba".to_string()),
                    ("start".to_string(), "125".to_string()),
                    ("rows".to_string(), "25".to_string())));
}

#[test]
fn chaining_leaves_the_receiver_as_it_was() {
    let a = SolrQuery::new("x");
    let b = a.add_field("f");
    assert!(!a.to_pairs().iter().any(|(k, _)| k == "fl"));
    assert!(b.to_pairs().iter().any(|(k, v)| k == "fl" && v == "f"));
}

#[test]
fn pairs_always_begin_with_format_and_term() {
    let query = SolrQuery::new("t").add_filter_query("a:b").add_sort("x", SortOrder::Ascending).start(3).rows(0);
    let pairs = query.to_pairs();
    assert_eq!(pairs[0], ("wt".to_string(), "json".to_string()));
    assert_eq!(pairs[1], ("q".to_string(), "t".to_string()));
    assert_eq!(pairs.len(), 6);
    assert_eq!(pairs[5], ("rows".to_string(), "0".to_string()));
}

#[test]
fn full_query_to_pairs_in_wire_order() {
    let query = SolrQuery::new("*:*")
        .add_field("id")
        .add_filter_query("type:Person")
        .add_sort("age", SortOrder::Descending)
        .start(18446744073709551615)
        .rows(4294967295);
    assert_eq!(query.to_pairs(),
               vec!(("wt".to_string(), "json".to_string()),
                    ("q".to_string(), "*:*".to_string()),
                    ("fl".to_string(), "id".to_string()),
                    ("fq".to_string(), "type:Person".to_string()),
                    ("sort".to_string(), "age desc".to_string()),
                    ("start".to_string(), "18446744073709551615".to_string()),
                    ("rows".to_string(), "4294967295".to_string())));
}

#[test]
fn set_fields_replaces_added_fields() {
    let query = SolrQuery::new("abba").add_field("a").set_fields(&["b", "c"]);
    assert_eq!(query.to_pairs()[2], ("fl".to_string(), "b, c".to_string()));
    let empty = SolrQuery::new("abba").add_field("a").set_fields(&[]);
    assert_eq!(empty.to_pairs()[2], ("fl".to_string(), "".to_string()));
}

#[test]
fn set_filters_and_sorts_replace_added_ones() {
    let query = SolrQuery::new("abba")
        .add_filter("a:1")
        .set_filters(&["b:2"])
        .add_sort("x", SortOrder::Ascending)
        .set_sorts(&[SortClause { field: "y".to_string(), order: SortOrder::Descending }]);
    assert_eq!(query.to_pairs(),
               vec!(("wt".to_string(), "json".to_string()),
                    ("q".to_string(), "abba".to_string()),
                    ("fq".to_string(), "b:2".to_string()),
                    ("sort".to_string(), "y desc".to_string())));
}

#[test]
fn sort_clause_and_order_render_as_url_params() {
    let clause = SortClause { field: "age".to_string(), order: SortOrder::Descending };
    assert_eq!(clause.to_url_param(), "age desc");
    assert_eq!(SortOrder::Ascending.to_url_param(), "asc");
    assert_eq!(SortOrder::Descending.to_url_param(), "desc");
}
