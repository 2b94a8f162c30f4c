use vibebase::globals::{
    delete_global_variable, get_global_variable, list_global_variables, save_global_variables,
};
use vibebase::store::AppDatabase;
use vibebase::workspace::{check_for_updates, GlobalVariable};

#[test]
fn global_variables_round_trip() {
    let db = AppDatabase::new().unwrap();
    save_global_variables(&db, Vec::new()).unwrap();
    assert!(list_global_variables(&db).unwrap().is_empty());

    let vars = vec![
        GlobalVariable { id: String::new(), key: "alpha".to_string(), value: "1".to_string() },
        GlobalVariable { id: "fixed-id".to_string(), key: "beta".to_string(), value: "2".to_string() },
    ];
    save_global_variables(&db, vars).unwrap();

    let listed = list_global_variables(&db).unwrap();
    assert_eq!(listed.len(), 2);
    assert_eq!(listed[0].key, "alpha");
    assert!(!listed[0].id.is_empty());
    assert_eq!(listed[1].key, "beta");
    assert_eq!(listed[1].id, "fixed-id");
    assert_eq!(listed[1].value, "2");

    let beta = get_global_variable(&db, "beta").unwrap();
    assert_eq!(beta.value, "2");

    delete_global_variable(&db, "beta").unwrap();
    assert!(get_global_variable(&db, "beta").is_err());
    let listed = list_global_variables(&db).unwrap();
    assert_eq!(listed.len(), 1);

    // Saving a new set replaces what was stored.
    save_global_variables(
        &db,
        vec![GlobalVariable { id: String::new(), key: "gamma".to_string(), value: "3".to_string() }],
    )
    .unwrap();
    let listed = list_global_variables(&db).unwrap();
    assert_eq!(listed.len(), 1);
    assert_eq!(listed[0].key, "gamma");
}

#[test]
fn update_check_reports_the_running_version_as_latest() {
    let info = check_for_updates("0.1.0".to_string());
    assert_eq!(info.current_version, "0.1.0");
    assert_eq!(info.latest_version, "0.1.0");
    assert!(!info.update_available);
    assert_eq!(info.release_notes, "You are running the latest version.");
    assert!(info.download_url.contains("releases"));
}
