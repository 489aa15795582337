use pg_human::schema::ColumnRow;
use pg_human::schema::ConstraintRow;
use pg_human::schema::DatabaseDescription;
use pg_human::schema::table_constraints;

fn col(schema: &str, table: &str, column: &str, data_type: &str) -> ColumnRow {
    ColumnRow {
        schema: schema.to_string(),
        table: table.to_string(),
        column: column.to_string(),
        data_type: data_type.to_string(),
    }
}

fn con(schema: &str, table: &str, definition: &str) -> ConstraintRow {
    ConstraintRow {
        schema: schema.to_string(),
        table: table.to_string(),
        definition: definition.to_string(),
    }
}

fn demo_rows() -> Vec<ColumnRow> {
    vec![
        col("public", "ads", "id", "bigint"),
        col("public", "ads", "company_id", "bigint"),
        col("public", "ads", "campaign_id", "bigint"),
        col("public", "ads", "name", "text"),
        col("public", "ads", "image_url", "text"),
        col("public", "ads", "target_url", "text"),
        col("public", "ads", "impressions_count", "bigint"),
        col("public", "ads", "clicks_count", "bigint"),
        col("public", "ads", "created_at", "timestamp without time zone"),
        col("public", "ads", "updated_at", "timestamp without time zone"),
        col("public", "campaigns", "id", "bigint"),
        col("public", "campaigns", "company_id", "bigint"),
        col("public", "campaigns", "name", "text"),
        col("public", "campaigns", "cost_model", "text"),
        col("public", "campaigns", "state", "text"),
        col("public", "campaigns", "monthly_budget", "bigint"),
        col("public", "campaigns", "blacklisted_site_urls", "ARRAY"),
        col("public", "campaigns", "created_at", "timestamp without time zone"),
        col("public", "campaigns", "updated_at", "timestamp without time zone"),
        col("public", "clicks", "id", "bigint"),
        col("public", "clicks", "company_id", "bigint"),
        col("public", "clicks", "ad_id", "bigint"),
        col("public", "clicks", "clicked_at", "timestamp without time zone"),
        col("public", "clicks", "site_url", "text"),
        col("public", "clicks", "cost_per_click_usd", "numeric"),
        col("public", "clicks", "user_ip", "inet"),
        col("public", "clicks", "user_data", "jsonb"),
        col("public", "companies", "id", "bigint"),
        col("public", "companies", "name", "text"),
        col("public", "companies", "image_url", "text"),
        col("public", "companies", "created_at", "timestamp without time zone"),
        col("public", "companies", "updated_at", "timestamp without time zone"),
        col("public", "impressions", "id", "bigint"),
        col("public", "impressions", "company_id", "bigint"),
        col("public", "impressions", "ad_id", "bigint"),
        col("public", "impressions", "seen_at", "timestamp without time zone"),
        col("public", "impressions", "site_url", "text"),
        col("public", "impressions", "cost_per_impression_usd", "numeric"),
        col("public", "impressions", "user_ip", "inet"),
        col("public", "impressions", "user_data", "jsonb"),
    ]
}

#[test]
fn test_hello_schema_dump() {
    let expected_schema = "CREATE TABLE public.ads(
    id bigint,
    company_id bigint,
    campaign_id bigint,
    name text,
    image_url text,
    target_url text,
    impressions_count bigint,
    clicks_count bigint,
    created_at timestamp without time zone,
    updated_at timestamp without time zone
);

CREATE TABLE public.campaigns(
    id bigint,
    company_id bigint,
    name text,
    cost_model text,
    state text,
    monthly_budget bigint,
    blacklisted_site_urls ARRAY,
    created_at timestamp without time zone,
    updated_at timestamp without time zone
);

CREATE TABLE public.clicks(
    id bigint,
    company_id bigint,
    ad_id bigint,
    clicked_at timestamp without time zone,
    site_url text,
    cost_per_click_usd numeric,
    user_ip inet,
    user_data jsonb
);

CREATE TABLE public.companies(
    id bigint,
    name text,
    image_url text,
    created_at timestamp without time zone,
    updated_at timestamp without time zone
);

CREATE TABLE public.impressions(
    id bigint,
    company_id bigint,
    ad_id bigint,
    seen_at timestamp without time zone,
    site_url text,
    cost_per_impression_usd numeric,
    user_ip inet,
    user_data jsonb
);";
    let db = DatabaseDescription::build(&demo_rows(), &Vec::new());
    assert_eq!(expected_schema, db.render_expanded());
}

#[test]
fn compact_rendering_golden() {
    let rows = vec![
        col("public", "companies", "id", "bigint"),
        col("public", "companies", "name", "text"),
    ];
    let crows = vec![con("public", "companies", "PRIMARY KEY (id)")];
    let db = DatabaseDescription::build(&rows, &crows);
    assert_eq!(
        "CREATE TABLE public.companies(id bigint, name text, PRIMARY KEY (id));",
        db.render_compact()
    );
}

#[test]
fn compact_rendering_concatenates_tables_without_separator() {
    let rows = vec![col("s", "a", "x", "int"), col("s", "b", "y", "int")];
    let db = DatabaseDescription::build(&rows, &Vec::new());
    assert_eq!("CREATE TABLE s.a(x int);CREATE TABLE s.b(y int);", db.render_compact());
}

#[test]
fn introspection_is_idempotent() {
    let first = DatabaseDescription::build(
        &demo_rows(),
        &vec![con("public", "companies", "PRIMARY KEY (id)")],
    );
    let second = DatabaseDescription::build(
        &demo_rows(),
        &vec![con("public", "companies", "PRIMARY KEY (id)")],
    );
    assert_eq!(first, second);
    assert_eq!(first.render_expanded(), second.render_expanded());
    assert_eq!(first.render_compact(), second.render_compact());
}

#[test]
fn grouping_follows_sorted_row_order() {
    let rows = vec![
        col("app", "campaigns", "id", "bigint"),
        col("app", "campaigns", "name", "text"),
        col("app", "companies", "id", "bigint"),
        col("public", "ads", "id", "bigint"),
    ];
    let db = DatabaseDescription::build(&rows, &Vec::new());
    assert_eq!(3, db.tables.len());
    assert_eq!("campaigns", db.tables[0].name);
    assert_eq!("companies", db.tables[1].name);
    assert_eq!("ads", db.tables[2].name);
    assert_eq!("public", db.tables[2].schema);
    assert_eq!(2, db.tables[0].columns.len());
    assert_eq!("id", db.tables[0].columns[0].name);
    assert_eq!("name", db.tables[0].columns[1].name);
}

#[test]
fn grouping_is_by_contiguous_runs_only() {
    // the pass depends on the rows arriving sorted: a key that reappears
    // after another key opens a second table rather than rejoining the
    // first
    let rows = vec![
        col("s", "a", "x", "int"),
        col("s", "b", "y", "int"),
        col("s", "a", "z", "int"),
    ];
    let db = DatabaseDescription::build(&rows, &Vec::new());
    assert_eq!(3, db.tables.len());
    assert_eq!("a", db.tables[0].name);
    assert_eq!("b", db.tables[1].name);
    assert_eq!("a", db.tables[2].name);
}

#[test]
fn same_table_name_in_two_schemas_stays_apart() {
    let rows = vec![col("s1", "t", "x", "int"), col("s2", "t", "y", "int")];
    let db = DatabaseDescription::build(&rows, &Vec::new());
    assert_eq!(2, db.tables.len());
    assert_eq!("s1", db.tables[0].schema);
    assert_eq!("s2", db.tables[1].schema);
}

#[test]
fn constraints_attach_to_their_table_in_order() {
    let rows = vec![col("public", "t", "x", "int"), col("public", "u", "y", "int")];
    let crows = vec![
        con("public", "u", "UNIQUE (y)"),
        con("public", "t", "PRIMARY KEY (x)"),
        con("other", "t", "CHECK (x > 0)"),
        con("public", "t", "CHECK (x < 10)"),
    ];
    let db = DatabaseDescription::build(&rows, &crows);
    assert_eq!(
        vec!["PRIMARY KEY (x)".to_string(), "CHECK (x < 10)".to_string()],
        db.tables[0].constraints
    );
    assert_eq!(vec!["UNIQUE (y)".to_string()], db.tables[1].constraints);
}

#[test]
fn table_constraints_filters_by_key() {
    let crows = vec![
        con("a", "t", "first"),
        con("b", "t", "second"),
        con("a", "t", "third"),
    ];
    let cs = table_constraints(&crows, &"a".to_string(), &"t".to_string());
    assert_eq!(vec!["first".to_string(), "third".to_string()], cs);
    let none = table_constraints(&crows, &"c".to_string(), &"t".to_string());
    assert!(none.is_empty());
}

#[test]
fn empty_catalog_yields_empty_description() {
    let db = DatabaseDescription::build(&Vec::new(), &Vec::new());
    assert!(db.tables.is_empty());
    assert_eq!("", db.render_expanded());
    assert_eq!("", db.render_compact());
}
