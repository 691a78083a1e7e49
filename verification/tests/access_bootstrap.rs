use lana_core::access_bootstrap::{
    new_permission_sets, permission_set_ids, role_plans, superuser_permission_sets, PermissionSetEntry,
    PredefinedRole, ROLE_NAME_SUPERUSER,
};
use lana_core::authz::action_mapping;

fn entry(name: &str, id: u128) -> PermissionSetEntry {
    PermissionSetEntry { name: name.to_string(), id }
}

#[test]
fn actions_are_grouped_by_permission_set_in_first_appearance_order() {
    let acts = vec![
        action_mapping("access", "user", "read", "access_viewer"),
        action_mapping("access", "user", "create", "access_writer"),
        action_mapping("access", "role", "read", "access_viewer"),
    ];
    let drafts = new_permission_sets(&acts, &vec![]);
    assert_eq!(drafts.len(), 2);
    assert_eq!(drafts[0].name, "access_viewer");
    assert_eq!(drafts[0].actions, vec![0, 2]);
    assert_eq!(drafts[1].name, "access_writer");
    assert_eq!(drafts[1].actions, vec![1]);
}

#[test]
fn existing_permission_sets_are_not_created_again() {
    let acts = vec![
        action_mapping("access", "user", "read", "access_viewer"),
        action_mapping("access", "user", "create", "access_writer"),
    ];
    let drafts = new_permission_sets(&acts, &vec!["access_writer".to_string()]);
    assert_eq!(drafts.len(), 1);
    assert_eq!(drafts[0].name, "access_viewer");
    let none = new_permission_sets(&acts, &vec!["access_viewer".to_string(), "access_writer".to_string()]);
    assert!(none.is_empty());
}

#[test]
fn superuser_gets_one_permission_set_per_name() {
    let sets = vec![entry("a", 1), entry("b", 2), entry("a", 3)];
    assert_eq!(superuser_permission_sets(&sets), vec![2, 3]);
    assert_eq!(permission_set_ids(&sets, &vec!["a".to_string(), "b".to_string()]), vec![3, 2]);
}

#[test]
fn predefined_roles_follow_the_superuser() {
    let sets = vec![entry("access_viewer", 10), entry("access_writer", 20)];
    let roles = vec![
        PredefinedRole {
            name: "admin".to_string(),
            permission_sets: vec!["access_viewer".to_string(), "access_writer".to_string()],
        },
        PredefinedRole { name: "bank-manager".to_string(), permission_sets: vec!["access_viewer".to_string()] },
    ];
    let plans = role_plans(&sets, &roles);
    assert_eq!(plans.len(), 3);
    assert_eq!(plans[0].name, ROLE_NAME_SUPERUSER);
    assert_eq!(plans[0].permission_sets, vec![10, 20]);
    assert_eq!(plans[1].name, "admin");
    assert_eq!(plans[1].permission_sets, vec![10, 20]);
    assert_eq!(plans[2].name, "bank-manager");
    assert_eq!(plans[2].permission_sets, vec![10]);
}

#[test]
fn roles_get_each_permission_set_once() {
    let sets = vec![entry("viewer", 10), entry("writer", 20), entry("also_viewer", 10)];
    assert_eq!(superuser_permission_sets(&sets), vec![10, 20]);
    let roles = vec![PredefinedRole {
        name: "admin".to_string(),
        permission_sets: vec!["viewer".to_string(), "writer".to_string(), "viewer".to_string(), "also_viewer".to_string()],
    }];
    let plans = role_plans(&sets, &roles);
    assert_eq!(plans[0].permission_sets, vec![10, 20]);
    assert_eq!(plans[1].permission_sets, vec![10, 20]);
}
