use vstd::prelude::*;

verus! {

/// Transport scheme policy for the router's REST API.
#[derive(Debug, Clone, Copy, PartialEq, Eq, Structural)]
pub enum MikrotikScheme {
    /// Try HTTPS first, then fall back to HTTP.
    Auto,
    Http,
    Https,
}

/// How to reach the router that hands out DHCP leases.
#[derive(Debug, Clone)]
pub struct Mikrotik {
    pub host: String,
    pub username: String,
    pub password: String,
    pub scheme: MikrotikScheme,
}

/// A chat, and a thread within it.
#[derive(Debug, Clone, Copy, PartialEq, Eq, Structural)]
pub struct ThreadIdPair {
    pub chat: i64,
    pub thread: i32,
}

#[derive(Debug, Clone)]
pub struct VortexOfDoom {
    /// A cron expression.
    pub schedule: String,
    pub chat: ThreadIdPair,
    pub additional_text: Option<String>,
}

#[derive(Debug, Clone)]
pub struct HomeAssistant {
    pub host: String,
    pub token: String,
}

#[derive(Debug, Clone)]
pub struct WikiJs {
    pub url: String,
    pub token: String,
    pub welcome_message_page: String,
    pub dashboard_page: String,
}

#[derive(Debug, Clone)]
pub struct OpenAI {
    pub api_key: String,
    pub api_base: Option<String>,
    /// Used for borrowed items.
    pub model: String,
    pub disable: bool,
}

#[derive(Debug, Clone)]
pub struct Ldap {
    pub domain: String,
    pub port: Option<u16>,
    pub tls: Option<bool>,
    pub verify_cert: Option<bool>,
    pub user: String,
    pub password: String,
    pub base_dn: String,
    pub groups_dn: String,
    pub users_dn: String,
    pub attributes: LdapAttributes,
}

#[derive(Debug, Clone)]
pub struct LdapAttributes {
    pub user_class: String,
    pub telegram_id: String,
    pub group_class: String,
    pub group_member: String,
    pub resident_group: String,
}

#[derive(Debug, Clone)]
pub struct Butler {
    pub url: String,
    pub token: String,
}

#[derive(Debug, Clone)]
pub struct BorrowedItemsConfig {
    pub reminders: Option<BorrowedItemsReminders>,
}

#[derive(Debug, Clone, Copy, PartialEq, Eq, Structural)]
pub struct BorrowedItemsReminders {
    /// How often to check for overdue items, in hours.
    pub check_interval_hours: u64,
    /// After how many hours an item is overdue.
    pub overdue_after_hours: u64,
    /// The most reminders sent for one item.
    pub max_reminders: u32,
    /// Hours between reminders.
    pub reminder_interval_hours: u64,
}

/// Every Tuesday at 07:00.
pub fn default_vortex_of_doom_schedule() -> (r: String)
    ensures
        r@ == "0 0 7 * * 2 *"@,
{
    String::from_str("0 0 7 * * 2 *")
}

/// The scheme policy used when none is configured.
pub fn default_mikrotik_scheme() -> (r: MikrotikScheme)
    ensures
        r == MikrotikScheme::Auto,
{
    MikrotikScheme::Auto
}

pub fn default_openai_api_base() -> (r: Option<String>)
    ensures
        r matches Some(s) && s@ == "https://openrouter.ai/api/v1"@,
{
    Some(String::from_str("https://openrouter.ai/api/v1"))
}

pub fn default_openai_model() -> (r: String)
    ensures
        r@ == "google/gemini-2.5-flash-preview"@,
{
    String::from_str("google/gemini-2.5-flash-preview")
}

pub fn default_ldap_groups_dn() -> (r: String)
    ensures
        r@ == "ou=groups"@,
{
    String::from_str("ou=groups")
}

pub fn default_ldap_users_dn() -> (r: String)
    ensures
        r@ == "ou=users"@,
{
    String::from_str("ou=users")
}

pub fn default_ldap_attribute_user_class() -> (r: String)
    ensures
        r@ == "forthspacePerson"@,
{
    String::from_str("forthspacePerson")
}

pub fn default_ldap_attribute_telegram_id() -> (r: String)
    ensures
        r@ == "telegramId"@,
{
    String::from_str("telegramId")
}

pub fn default_ldap_attribute_group_class() -> (r: String)
    ensures
        r@ == "groupOfUniqueNames"@,
{
    String::from_str("groupOfUniqueNames")
}

pub fn default_ldap_attribute_group_member() -> (r: String)
    ensures
        r@ == "uniqueMember"@,
{
    String::from_str("uniqueMember")
}

pub fn default_ldap_attribute_resident_group() -> (r: String)
    ensures
        r@ == "residents"@,
{
    String::from_str("residents")
}

/// Check for overdue items every 6 hours.
pub fn default_borrowed_items_check_interval() -> (r: u64)
    ensures
        r == 6,
{
    6
}

/// An item is overdue after 24 hours.
pub fn default_borrowed_items_overdue_hours() -> (r: u64)
    ensures
        r == 24,
{
    24
}

/// At most 3 reminders per item.
pub fn default_borrowed_items_max_reminders() -> (r: u32)
    ensures
        r == 3,
{
    3
}

/// A reminder every 12 hours.
pub fn default_borrowed_items_reminder_interval() -> (r: u64)
    ensures
        r == 12,
{
    12
}

pub fn default_max_history() -> (r: u16)
    ensures
        r == 30,
{
    30
}

/// One week, in hours.
pub fn default_memory_limit() -> (r: i64)
    ensures
        r == 24 * 7,
{
    24 * 7
}

/// Models in order of performance and cost; the first is the cheapest.
pub fn default_models() -> (r: Vec<String>)
    ensures
        r@.len() == 3,
        r@[0]@ == "openai/gpt-4.1-nano"@,
        r@[1]@ == "openai/gpt-4.1-mini"@,
        r@[2]@ == "openai/gpt-4.1"@,
{
    let mut models: Vec<String> = Vec::new();
    models.push(String::from_str("openai/gpt-4.1-nano"));
    models.push(String::from_str("openai/gpt-4.1-mini"));
    models.push(String::from_str("openai/gpt-4.1"));
    models
}

pub fn default_search_model() -> (r: String)
    ensures
        r@ == "openai/gpt-4o-mini-search-preview"@,
{
    String::from_str("openai/gpt-4o-mini-search-preview")
}

pub fn default_classification_model() -> (r: Option<String>)
    ensures
        r matches Some(s) && s@ == "google/gemini-2.0-flash-lite-001"@,
{
    Some(String::from_str("google/gemini-2.0-flash-lite-001"))
}

} // verus!
