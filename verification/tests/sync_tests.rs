use request_engine::ids::generate_id;
use request_engine::ids::generate_model_id;
use request_engine::ids::ModelType;
use request_engine::models::Workspace;
use request_engine::sync::SyncBranchIden;
use request_engine::sync::SyncCommit;
use request_engine::sync::SyncCommitIden;
use request_engine::sync::SyncModel;
use request_engine::sync::SyncObjectIden;

fn commit(object_ids: Vec<&str>) -> SyncCommit {
    SyncCommit {
        model: "sync_commit".to_string(),
        id: "".to_string(),
        workspace_id: "wk_1".to_string(),
        created_at: 0,
        message: None,
        object_ids: object_ids.into_iter().map(|s| s.to_string()).collect(),
    }
}

#[test]
fn a_commit_without_objects_hashes_the_empty_input() {
    assert_eq!(
        commit(vec![]).generate_id(),
        "sc_da39a3ee5e6b4b0d3255bfef95601890afd80709"
    );
}

#[test]
fn a_commit_id_hashes_the_object_ids_in_order() {
    assert_eq!(
        commit(vec!["wk_1", "fl_2"]).generate_id(),
        "sc_14e6dd647613d70dc5bb2d38cb35fb0d1bd4c263"
    );
    assert_ne!(
        commit(vec!["fl_2", "wk_1"]).generate_id(),
        commit(vec!["wk_1", "fl_2"]).generate_id()
    );
}

#[test]
fn equal_content_yields_equal_commit_ids() {
    assert_eq!(
        commit(vec!["a", "b"]).generate_id(),
        commit(vec!["a", "b"]).generate_id()
    );
}

#[test]
fn a_model_reports_the_id_of_what_it_wraps() {
    let m = SyncModel::Workspace(Workspace {
        id: "wk_42".to_string(),
        name: "w".to_string(),
        setting_follow_redirects: true,
        setting_validate_certificates: true,
        setting_request_timeout: 0,
    });
    assert_eq!(m.model_id(), "wk_42");
}

#[test]
fn generated_ids_carry_the_kind_prefix() {
    let id = generate_model_id(ModelType::TypeHttpRequest);
    assert_eq!(id.len(), 13);
    assert!(id.starts_with("rq_"));
    assert!(id[3..].chars().all(|c| c.is_ascii_alphanumeric()));
}

#[test]
fn raw_tokens_are_ten_alphanumerics() {
    let token = generate_id();
    assert_eq!(token.len(), 10);
    assert!(token.chars().all(|c| c.is_ascii_alphanumeric()));
}

#[test]
fn two_generated_ids_differ() {
    assert_ne!(generate_id(), generate_id());
}

#[test]
fn the_sync_tables_name_their_columns() {
    assert_eq!(SyncBranchIden::Table.sql_name(), "sync_branches");
    assert_eq!(SyncBranchIden::CommitIds.sql_name(), "commit_ids");
    assert_eq!(SyncCommitIden::Table.sql_name(), "sync_commits");
    assert_eq!(SyncCommitIden::ObjectIds.sql_name(), "object_ids");
    assert_eq!(SyncObjectIden::Table.sql_name(), "sync_objects");
    assert_eq!(SyncObjectIden::ModelModel.sql_name(), "model_model");
}

#[test]
fn every_kind_has_its_own_prefix() {
    let cases = [
        (ModelType::TypeWorkspace, "wk_"),
        (ModelType::TypeEnvironment, "ev_"),
        (ModelType::TypeFolder, "fl_"),
        (ModelType::TypeHttpRequest, "rq_"),
        (ModelType::TypeGrpcRequest, "gr_"),
        (ModelType::TypeGrpcConnection, "gc_"),
        (ModelType::TypeGrpcEvent, "ge_"),
        (ModelType::TypeHttpResponse, "rs_"),
        (ModelType::TypeCookieJar, "cj_"),
        (ModelType::TypeKeyValue, "kv_"),
        (ModelType::TypeSettings, "st_"),
        (ModelType::TypePlugin, "pg_"),
    ];
    for (kind, prefix) in cases {
        assert!(generate_model_id(kind).starts_with(prefix));
    }
}
