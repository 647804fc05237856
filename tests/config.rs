use f0bot::config::{
    default_borrowed_items_check_interval, default_borrowed_items_max_reminders,
    default_borrowed_items_overdue_hours, default_borrowed_items_reminder_interval,
    default_classification_model, default_ldap_attribute_group_class,
    default_ldap_attribute_group_member, default_ldap_attribute_resident_group,
    default_ldap_attribute_telegram_id, default_ldap_attribute_user_class, default_ldap_groups_dn,
    default_ldap_users_dn, default_max_history, default_memory_limit, default_mikrotik_scheme,
    default_models, default_openai_api_base, default_openai_model, default_search_model,
    default_vortex_of_doom_schedule, MikrotikScheme,
};

#[test]
fn ldap_defaults() {
    assert_eq!(default_ldap_groups_dn(), "ou=groups");
    assert_eq!(default_ldap_users_dn(), "ou=users");
    assert_eq!(default_ldap_attribute_user_class(), "forthspacePerson");
    assert_eq!(default_ldap_attribute_telegram_id(), "telegramId");
    assert_eq!(default_ldap_attribute_group_class(), "groupOfUniqueNames");
    assert_eq!(default_ldap_attribute_group_member(), "uniqueMember");
    assert_eq!(default_ldap_attribute_resident_group(), "residents");
}

#[test]
fn scheme_defaults_to_auto() {
    assert_eq!(default_mikrotik_scheme(), MikrotikScheme::Auto);
}

#[test]
fn borrowed_items_defaults() {
    assert_eq!(default_borrowed_items_check_interval(), 6);
    assert_eq!(default_borrowed_items_overdue_hours(), 24);
    assert_eq!(default_borrowed_items_max_reminders(), 3);
    assert_eq!(default_borrowed_items_reminder_interval(), 12);
}

#[test]
fn model_defaults() {
    assert_eq!(default_openai_api_base().as_deref(), Some("https://openrouter.ai/api/v1"));
    assert_eq!(default_openai_model(), "google/gemini-2.5-flash-preview");
    assert_eq!(default_models(), vec!["openai/gpt-4.1-nano", "openai/gpt-4.1-mini", "openai/gpt-4.1"]);
    assert_eq!(default_search_model(), "openai/gpt-4o-mini-search-preview");
    assert_eq!(default_classification_model().as_deref(), Some("google/gemini-2.0-flash-lite-001"));
    assert_eq!(default_max_history(), 30);
    assert_eq!(default_memory_limit(), 168);
    assert_eq!(default_vortex_of_doom_schedule(), "0 0 7 * * 2 *");
}
