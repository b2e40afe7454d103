use network_tunnel::publications::DraftCollection;
use network_tunnel::publications::ExpandDraft;
use network_tunnel::publications::ExpandedRow;
use network_tunnel::publications::NoExpansion;
use network_tunnel::publications::RowDisposition;
use network_tunnel::publications::UpdateInferredSchemas;
use network_tunnel::publications::uses_inferred_schema;

fn collection(name: &str, is_touch: bool, has_read_schema: bool, references: bool) -> DraftCollection {
    DraftCollection {
        name: name.to_owned(),
        is_touch,
        has_read_schema,
        schema_references_inferred: references,
    }
}

#[test]
fn inferred_schema_use_requires_a_real_change_with_a_referencing_read_schema() {
    assert!(uses_inferred_schema(&collection("a", false, true, true)));
    assert!(!uses_inferred_schema(&collection("a", true, true, true)));
    assert!(!uses_inferred_schema(&collection("a", false, false, true)));
    assert!(!uses_inferred_schema(&collection("a", false, true, false)));
}

#[test]
fn no_expansion_selects_nothing() {
    let draft = vec![collection("a", false, true, true)];
    assert!(NoExpansion.collections_to_update(&draft).is_empty());
}

#[test]
fn update_inferred_schemas_selects_the_using_collections_in_order() {
    let draft = vec![
        collection("a", false, true, true),
        collection("b", true, true, true),
        collection("c", false, true, false),
        collection("d", false, true, true),
    ];
    let names = UpdateInferredSchemas.collections_to_update(&draft);
    assert_eq!(names, vec!["a".to_owned(), "d".to_owned()]);
}

fn row(admin: bool, has_spec_type: bool, has_model: bool) -> ExpandedRow {
    ExpandedRow {
        catalog_name: "acme/task".to_owned(),
        user_has_admin: admin,
        has_spec_type,
        has_model,
    }
}

#[test]
fn rows_without_admin_are_skipped_only_under_the_filter() {
    let filtering = ExpandDraft { filter_user_has_admin: true };
    let open = ExpandDraft { filter_user_has_admin: false };
    assert_eq!(filtering.disposition(&row(false, true, true)), RowDisposition::Skip);
    assert_eq!(open.disposition(&row(false, true, true)), RowDisposition::Add);
}

#[test]
fn incomplete_rows_fail_the_expansion() {
    let open = ExpandDraft { filter_user_has_admin: false };
    assert_eq!(open.disposition(&row(true, false, true)), RowDisposition::MissingSpecType);
    assert_eq!(open.disposition(&row(true, true, false)), RowDisposition::MissingModel);
}

#[test]
fn complete_admitted_rows_are_added() {
    let filtering = ExpandDraft { filter_user_has_admin: true };
    assert_eq!(filtering.disposition(&row(true, true, true)), RowDisposition::Add);
}
