use vstd::prelude::*;
use crate::text::str_eq;

verus! {

/// The runtime type a schema entry demands of a value.
#[derive(Clone, Copy, Debug, PartialEq, Eq, Structural)]
pub enum TypeConstraint {
    String,
    Number,
    Integer,
    Float,
    Bool,
    Object,
    Array,
}

/// The first constraint that is set, if either is.
pub open spec fn spec_or_constraint(
    a: Option<TypeConstraint>,
    b: Option<TypeConstraint>,
) -> Option<TypeConstraint> {
    if a is Some {
        a
    } else {
        b
    }
}

/// Types of the fixed top-level meta keys.
pub open spec fn spec_meta_constraint(k: Seq<char>) -> Option<TypeConstraint> {
    if k == "#app_id"@ {
        Some(TypeConstraint::String)
    } else if k == "#bundle_id"@ {
        Some(TypeConstraint::String)
    } else if k == "#android_id"@ {
        Some(TypeConstraint::String)
    } else if k == "#gaid"@ {
        Some(TypeConstraint::String)
    } else if k == "#dt_id"@ {
        Some(TypeConstraint::String)
    } else if k == "#acid"@ {
        Some(TypeConstraint::String)
    } else if k == "#event_name"@ {
        Some(TypeConstraint::String)
    } else if k == "#event_type"@ {
        Some(TypeConstraint::String)
    } else if k == "#event_time"@ {
        Some(TypeConstraint::Integer)
    } else if k == "#event_syn"@ {
        Some(TypeConstraint::String)
    } else if k == "properties"@ {
        Some(TypeConstraint::Object)
    } else if k == "#debug"@ {
        Some(TypeConstraint::Bool)
    } else {
        None
    }
}

pub fn meta_constraint(k: &str) -> (r: Option<TypeConstraint>)
    ensures
        r == spec_meta_constraint(k@),
{
    if str_eq(k, "#app_id") {
        Some(TypeConstraint::String)
    } else if str_eq(k, "#bundle_id") {
        Some(TypeConstraint::String)
    } else if str_eq(k, "#android_id") {
        Some(TypeConstraint::String)
    } else if str_eq(k, "#gaid") {
        Some(TypeConstraint::String)
    } else if str_eq(k, "#dt_id") {
        Some(TypeConstraint::String)
    } else if str_eq(k, "#acid") {
        Some(TypeConstraint::String)
    } else if str_eq(k, "#event_name") {
        Some(TypeConstraint::String)
    } else if str_eq(k, "#event_type") {
        Some(TypeConstraint::String)
    } else if str_eq(k, "#event_time") {
        Some(TypeConstraint::Integer)
    } else if str_eq(k, "#event_syn") {
        Some(TypeConstraint::String)
    } else if str_eq(k, "properties") {
        Some(TypeConstraint::Object)
    } else if str_eq(k, "#debug") {
        Some(TypeConstraint::Bool)
    } else {
        None
    }
}

/// Properties every event may carry: the SDK identification pair.
pub open spec fn spec_common_constraint(k: Seq<char>) -> Option<TypeConstraint> {
    if k == "#sdk_type"@ {
        Some(TypeConstraint::String)
    } else if k == "#sdk_version_name"@ {
        Some(TypeConstraint::String)
    } else {
        None
    }
}

pub fn common_constraint(k: &str) -> (r: Option<TypeConstraint>)
    ensures
        r == spec_common_constraint(k@),
{
    if str_eq(k, "#sdk_type") {
        Some(TypeConstraint::String)
    } else if str_eq(k, "#sdk_version_name") {
        Some(TypeConstraint::String)
    } else {
        None
    }
}

/// Preset properties shared by all track events.
pub open spec fn spec_preset_common_constraint(k: Seq<char>) -> Option<TypeConstraint> {
    if k == "#bundle_id"@ {
        Some(TypeConstraint::String)
    } else if k == "#zone_offset"@ {
        Some(TypeConstraint::Number)
    } else if k == "#session_id"@ {
        Some(TypeConstraint::String)
    } else if k == "#device_manufacturer"@ {
        Some(TypeConstraint::String)
    } else if k == "#is_foreground"@ {
        Some(TypeConstraint::Bool)
    } else if k == "#mcc"@ {
        Some(TypeConstraint::String)
    } else if k == "#mnc"@ {
        Some(TypeConstraint::String)
    } else if k == "#os_country_code"@ {
        Some(TypeConstraint::String)
    } else if k == "#os_lang_code"@ {
        Some(TypeConstraint::String)
    } else if k == "#app_version_code"@ {
        Some(TypeConstraint::Integer)
    } else if k == "#app_version_name"@ {
        Some(TypeConstraint::String)
    } else if k == "#os"@ {
        Some(TypeConstraint::String)
    } else if k == "#os_version_name"@ {
        Some(TypeConstraint::String)
    } else if k == "#os_version_code"@ {
        Some(TypeConstraint::Number)
    } else if k == "#device_brand"@ {
        Some(TypeConstraint::String)
    } else if k == "#device_model"@ {
        Some(TypeConstraint::String)
    } else if k == "#screen_height"@ {
        Some(TypeConstraint::Number)
    } else if k == "#screen_width"@ {
        Some(TypeConstraint::Number)
    } else if k == "#memory_used"@ {
        Some(TypeConstraint::String)
    } else if k == "#storage_used"@ {
        Some(TypeConstraint::String)
    } else if k == "#network_type"@ {
        Some(TypeConstraint::String)
    } else if k == "#simulator"@ {
        Some(TypeConstraint::Bool)
    } else if k == "#fps"@ {
        Some(TypeConstraint::Number)
    } else if k == "#scene"@ {
        Some(TypeConstraint::String)
    } else if k == "#mp_platform"@ {
        Some(TypeConstraint::String)
    } else if k == "#gaid"@ {
        Some(TypeConstraint::String)
    } else if k == "#build_device"@ {
        Some(TypeConstraint::String)
    } else if k == "#duration"@ {
        Some(TypeConstraint::String)
    } else if k == "#firebase_iid"@ {
        Some(TypeConstraint::String)
    } else if k == "#appsflyer_id"@ {
        Some(TypeConstraint::String)
    } else if k == "#adjust_id"@ {
        Some(TypeConstraint::String)
    } else if k == "#kochava_id"@ {
        Some(TypeConstraint::String)
    } else {
        None
    }
}

pub fn preset_common_constraint(k: &str) -> (r: Option<TypeConstraint>)
    ensures
        r == spec_preset_common_constraint(k@),
{
    if str_eq(k, "#bundle_id") {
        Some(TypeConstraint::String)
    } else if str_eq(k, "#zone_offset") {
        Some(TypeConstraint::Number)
    } else if str_eq(k, "#session_id") {
        Some(TypeConstraint::String)
    } else if str_eq(k, "#device_manufacturer") {
        Some(TypeConstraint::String)
    } else if str_eq(k, "#is_foreground") {
        Some(TypeConstraint::Bool)
    } else if str_eq(k, "#mcc") {
        Some(TypeConstraint::String)
    } else if str_eq(k, "#mnc") {
        Some(TypeConstraint::String)
    } else if str_eq(k, "#os_country_code") {
        Some(TypeConstraint::String)
    } else if str_eq(k, "#os_lang_code") {
        Some(TypeConstraint::String)
    } else if str_eq(k, "#app_version_code") {
        Some(TypeConstraint::Integer)
    } else if str_eq(k, "#app_version_name") {
        Some(TypeConstraint::String)
    } else if str_eq(k, "#os") {
        Some(TypeConstraint::String)
    } else if str_eq(k, "#os_version_name") {
        Some(TypeConstraint::String)
    } else if str_eq(k, "#os_version_code") {
        Some(TypeConstraint::Number)
    } else if str_eq(k, "#device_brand") {
        Some(TypeConstraint::String)
    } else if str_eq(k, "#device_model") {
        Some(TypeConstraint::String)
    } else if str_eq(k, "#screen_height") {
        Some(TypeConstraint::Number)
    } else if str_eq(k, "#screen_width") {
        Some(TypeConstraint::Number)
    } else if str_eq(k, "#memory_used") {
        Some(TypeConstraint::String)
    } else if str_eq(k, "#storage_used") {
        Some(TypeConstraint::String)
    } else if str_eq(k, "#network_type") {
        Some(TypeConstraint::String)
    } else if str_eq(k, "#simulator") {
        Some(TypeConstraint::Bool)
    } else if str_eq(k, "#fps") {
        Some(TypeConstraint::Number)
    } else if str_eq(k, "#scene") {
        Some(TypeConstraint::String)
    } else if str_eq(k, "#mp_platform") {
        Some(TypeConstraint::String)
    } else if str_eq(k, "#gaid") {
        Some(TypeConstraint::String)
    } else if str_eq(k, "#build_device") {
        Some(TypeConstraint::String)
    } else if str_eq(k, "#duration") {
        Some(TypeConstraint::String)
    } else if str_eq(k, "#firebase_iid") {
        Some(TypeConstraint::String)
    } else if str_eq(k, "#appsflyer_id") {
        Some(TypeConstraint::String)
    } else if str_eq(k, "#adjust_id") {
        Some(TypeConstraint::String)
    } else if str_eq(k, "#kochava_id") {
        Some(TypeConstraint::String)
    } else {
        None
    }
}

/// Preset properties allowed on user events.
pub open spec fn spec_user_common_constraint(k: Seq<char>) -> Option<TypeConstraint> {
    if k == "#active_device_model"@ {
        Some(TypeConstraint::String)
    } else if k == "#active_network_type"@ {
        Some(TypeConstraint::String)
    } else if k == "#active_os_version_name"@ {
        Some(TypeConstraint::String)
    } else if k == "#active_os"@ {
        Some(TypeConstraint::String)
    } else if k == "#active_os_lang_code"@ {
        Some(TypeConstraint::String)
    } else if k == "#firebase_iid"@ {
        Some(TypeConstraint::String)
    } else if k == "#active_bundle_id"@ {
        Some(TypeConstraint::String)
    } else if k == "#active_device_manufacturer"@ {
        Some(TypeConstraint::String)
    } else if k == "#active_screen_width"@ {
        Some(TypeConstraint::Number)
    } else if k == "#active_mcc"@ {
        Some(TypeConstraint::String)
    } else if k == "#active_os_country_code"@ {
        Some(TypeConstraint::String)
    } else if k == "#active_mnc"@ {
        Some(TypeConstraint::String)
    } else if k == "#active_storage_used"@ {
        Some(TypeConstraint::String)
    } else if k == "#active_user_agent"@ {
        Some(TypeConstraint::String)
    } else if k == "#active_app_version_code"@ {
        Some(TypeConstraint::Number)
    } else if k == "#active_sdk_type"@ {
        Some(TypeConstraint::String)
    } else if k == "#active_device_brand"@ {
        Some(TypeConstraint::String)
    } else if k == "#active_memory_used"@ {
        Some(TypeConstraint::String)
    } else if k == "#active_sdk_version_name"@ {
        Some(TypeConstraint::String)
    } else if k == "#active_screen_height"@ {
        Some(TypeConstraint::Number)
    } else if k == "#active_app_version_name"@ {
        Some(TypeConstraint::String)
    } else if k == "#active_simulator"@ {
        Some(TypeConstraint::Bool)
    } else {
        None
    }
}

pub fn user_common_constraint(k: &str) -> (r: Option<TypeConstraint>)
    ensures
        r == spec_user_common_constraint(k@),
{
    if str_eq(k, "#active_device_model") {
        Some(TypeConstraint::String)
    } else if str_eq(k, "#active_network_type") {
        Some(TypeConstraint::String)
    } else if str_eq(k, "#active_os_version_name") {
        Some(TypeConstraint::String)
    } else if str_eq(k, "#active_os") {
        Some(TypeConstraint::String)
    } else if str_eq(k, "#active_os_lang_code") {
        Some(TypeConstraint::String)
    } else if str_eq(k, "#firebase_iid") {
        Some(TypeConstraint::String)
    } else if str_eq(k, "#active_bundle_id") {
        Some(TypeConstraint::String)
    } else if str_eq(k, "#active_device_manufacturer") {
        Some(TypeConstraint::String)
    } else if str_eq(k, "#active_screen_width") {
        Some(TypeConstraint::Number)
    } else if str_eq(k, "#active_mcc") {
        Some(TypeConstraint::String)
    } else if str_eq(k, "#active_os_country_code") {
        Some(TypeConstraint::String)
    } else if str_eq(k, "#active_mnc") {
        Some(TypeConstraint::String)
    } else if str_eq(k, "#active_storage_used") {
        Some(TypeConstraint::String)
    } else if str_eq(k, "#active_user_agent") {
        Some(TypeConstraint::String)
    } else if str_eq(k, "#active_app_version_code") {
        Some(TypeConstraint::Number)
    } else if str_eq(k, "#active_sdk_type") {
        Some(TypeConstraint::String)
    } else if str_eq(k, "#active_device_brand") {
        Some(TypeConstraint::String)
    } else if str_eq(k, "#active_memory_used") {
        Some(TypeConstraint::String)
    } else if str_eq(k, "#active_sdk_version_name") {
        Some(TypeConstraint::String)
    } else if str_eq(k, "#active_screen_height") {
        Some(TypeConstraint::Number)
    } else if str_eq(k, "#active_app_version_name") {
        Some(TypeConstraint::String)
    } else if str_eq(k, "#active_simulator") {
        Some(TypeConstraint::Bool)
    } else {
        None
    }
}

/// Properties of the ad event family.
pub open spec fn spec_ad_constraint(k: Seq<char>) -> Option<TypeConstraint> {
    if k == "#ad_seq"@ {
        Some(TypeConstraint::String)
    } else if k == "#ad_id"@ {
        Some(TypeConstraint::String)
    } else if k == "#ad_type_code"@ {
        Some(TypeConstraint::Integer)
    } else if k == "#ad_platform_code"@ {
        Some(TypeConstraint::Integer)
    } else if k == "#ad_mediation_code"@ {
        Some(TypeConstraint::Integer)
    } else if k == "#ad_mediation_id"@ {
        Some(TypeConstraint::String)
    } else {
        None
    }
}

pub fn ad_constraint(k: &str) -> (r: Option<TypeConstraint>)
    ensures
        r == spec_ad_constraint(k@),
{
    if str_eq(k, "#ad_seq") {
        Some(TypeConstraint::String)
    } else if str_eq(k, "#ad_id") {
        Some(TypeConstraint::String)
    } else if str_eq(k, "#ad_type_code") {
        Some(TypeConstraint::Integer)
    } else if str_eq(k, "#ad_platform_code") {
        Some(TypeConstraint::Integer)
    } else if str_eq(k, "#ad_mediation_code") {
        Some(TypeConstraint::Integer)
    } else if str_eq(k, "#ad_mediation_id") {
        Some(TypeConstraint::String)
    } else {
        None
    }
}

/// Properties of the subscription events.
pub open spec fn spec_ias_constraint(k: Seq<char>) -> Option<TypeConstraint> {
    if k == "#ias_original_order"@ {
        Some(TypeConstraint::String)
    } else if k == "#ias_order"@ {
        Some(TypeConstraint::String)
    } else if k == "#ias_sku"@ {
        Some(TypeConstraint::String)
    } else if k == "#ias_price"@ {
        Some(TypeConstraint::Number)
    } else if k == "#ias_currency"@ {
        Some(TypeConstraint::String)
    } else {
        None
    }
}

pub fn ias_constraint(k: &str) -> (r: Option<TypeConstraint>)
    ensures
        r == spec_ias_constraint(k@),
{
    if str_eq(k, "#ias_original_order") {
        Some(TypeConstraint::String)
    } else if str_eq(k, "#ias_order") {
        Some(TypeConstraint::String)
    } else if str_eq(k, "#ias_sku") {
        Some(TypeConstraint::String)
    } else if str_eq(k, "#ias_price") {
        Some(TypeConstraint::Number)
    } else if str_eq(k, "#ias_currency") {
        Some(TypeConstraint::String)
    } else {
        None
    }
}

/// Properties of the install-attribution event.
pub open spec fn spec_app_install_constraint(k: Seq<char>) -> Option<TypeConstraint> {
    if k == "#referrer_url"@ {
        Some(TypeConstraint::String)
    } else if k == "#referrer_click_time"@ {
        Some(TypeConstraint::Integer)
    } else if k == "#referrer_click_time_server"@ {
        Some(TypeConstraint::Integer)
    } else if k == "#app_install_time"@ {
        Some(TypeConstraint::Integer)
    } else if k == "#app_install_time_server"@ {
        Some(TypeConstraint::Integer)
    } else if k == "#instant_experience_launched"@ {
        Some(TypeConstraint::Bool)
    } else if k == "#failed_reason"@ {
        Some(TypeConstraint::String)
    } else if k == "#cnl"@ {
        Some(TypeConstraint::String)
    } else {
        None
    }
}

pub fn app_install_constraint(k: &str) -> (r: Option<TypeConstraint>)
    ensures
        r == spec_app_install_constraint(k@),
{
    if str_eq(k, "#referrer_url") {
        Some(TypeConstraint::String)
    } else if str_eq(k, "#referrer_click_time") {
        Some(TypeConstraint::Integer)
    } else if str_eq(k, "#referrer_click_time_server") {
        Some(TypeConstraint::Integer)
    } else if str_eq(k, "#app_install_time") {
        Some(TypeConstraint::Integer)
    } else if str_eq(k, "#app_install_time_server") {
        Some(TypeConstraint::Integer)
    } else if str_eq(k, "#instant_experience_launched") {
        Some(TypeConstraint::Bool)
    } else if str_eq(k, "#failed_reason") {
        Some(TypeConstraint::String)
    } else if str_eq(k, "#cnl") {
        Some(TypeConstraint::String)
    } else {
        None
    }
}

/// Properties of the session-start event.
pub open spec fn spec_session_start_constraint(k: Seq<char>) -> Option<TypeConstraint> {
    if k == "#is_first_time"@ {
        Some(TypeConstraint::Bool)
    } else if k == "#resume_from_background"@ {
        Some(TypeConstraint::Bool)
    } else if k == "#start_reason"@ {
        Some(TypeConstraint::String)
    } else if k == "#background_duration"@ {
        Some(TypeConstraint::Integer)
    } else {
        None
    }
}

pub fn session_start_constraint(k: &str) -> (r: Option<TypeConstraint>)
    ensures
        r == spec_session_start_constraint(k@),
{
    if str_eq(k, "#is_first_time") {
        Some(TypeConstraint::Bool)
    } else if str_eq(k, "#resume_from_background") {
        Some(TypeConstraint::Bool)
    } else if str_eq(k, "#start_reason") {
        Some(TypeConstraint::String)
    } else if str_eq(k, "#background_duration") {
        Some(TypeConstraint::Integer)
    } else {
        None
    }
}

/// Properties of the session-end event.
pub open spec fn spec_session_end_constraint(k: Seq<char>) -> Option<TypeConstraint> {
    if k == "#session_duration"@ {
        Some(TypeConstraint::Integer)
    } else {
        None
    }
}

pub fn session_end_constraint(k: &str) -> (r: Option<TypeConstraint>)
    ensures
        r == spec_session_end_constraint(k@),
{
    if str_eq(k, "#session_duration") {
        Some(TypeConstraint::Integer)
    } else {
        None
    }
}

/// Properties of the purchase event.
pub open spec fn spec_iap_constraint(k: Seq<char>) -> Option<TypeConstraint> {
    if k == "#iap_order"@ {
        Some(TypeConstraint::String)
    } else if k == "#iap_sku"@ {
        Some(TypeConstraint::String)
    } else if k == "#iap_price"@ {
        Some(TypeConstraint::Number)
    } else if k == "#iap_currency"@ {
        Some(TypeConstraint::String)
    } else {
        None
    }
}

pub fn iap_constraint(k: &str) -> (r: Option<TypeConstraint>)
    ensures
        r == spec_iap_constraint(k@),
{
    if str_eq(k, "#iap_order") {
        Some(TypeConstraint::String)
    } else if str_eq(k, "#iap_sku") {
        Some(TypeConstraint::String)
    } else if str_eq(k, "#iap_price") {
        Some(TypeConstraint::Number)
    } else if str_eq(k, "#iap_currency") {
        Some(TypeConstraint::String)
    } else {
        None
    }
}

/// Placement properties of ad events past the load phase.
pub open spec fn spec_ad_placement_constraint(k: Seq<char>) -> Option<TypeConstraint> {
    if k == "#ad_entrance"@ {
        Some(TypeConstraint::String)
    } else if k == "#ad_location"@ {
        Some(TypeConstraint::String)
    } else {
        None
    }
}

pub fn ad_placement_constraint(k: &str) -> (r: Option<TypeConstraint>)
    ensures
        r == spec_ad_placement_constraint(k@),
{
    if str_eq(k, "#ad_entrance") {
        Some(TypeConstraint::String)
    } else if str_eq(k, "#ad_location") {
        Some(TypeConstraint::String)
    } else {
        None
    }
}

/// Outcome properties of the ad-load-end event.
pub open spec fn spec_ad_load_end_constraint(k: Seq<char>) -> Option<TypeConstraint> {
    if k == "#load_result"@ {
        Some(TypeConstraint::Bool)
    } else if k == "#load_duration"@ {
        Some(TypeConstraint::Number)
    } else {
        None
    }
}

pub fn ad_load_end_constraint(k: &str) -> (r: Option<TypeConstraint>)
    ensures
        r == spec_ad_load_end_constraint(k@),
{
    if str_eq(k, "#load_result") {
        Some(TypeConstraint::Bool)
    } else if str_eq(k, "#load_duration") {
        Some(TypeConstraint::Number)
    } else {
        None
    }
}

/// Failure properties of ad events that can fail.
pub open spec fn spec_ad_failed_constraint(k: Seq<char>) -> Option<TypeConstraint> {
    if k == "#error_code"@ {
        Some(TypeConstraint::Integer)
    } else if k == "#error_message"@ {
        Some(TypeConstraint::String)
    } else {
        None
    }
}

pub fn ad_failed_constraint(k: &str) -> (r: Option<TypeConstraint>)
    ensures
        r == spec_ad_failed_constraint(k@),
{
    if str_eq(k, "#error_code") {
        Some(TypeConstraint::Integer)
    } else if str_eq(k, "#error_message") {
        Some(TypeConstraint::String)
    } else {
        None
    }
}

/// Revenue properties of the ad-paid event.
pub open spec fn spec_ad_paid_constraint(k: Seq<char>) -> Option<TypeConstraint> {
    if k == "#ad_value"@ {
        Some(TypeConstraint::Number)
    } else if k == "#ad_currency"@ {
        Some(TypeConstraint::String)
    } else if k == "#ad_precision"@ {
        Some(TypeConstraint::String)
    } else if k == "#ad_country_code"@ {
        Some(TypeConstraint::String)
    } else {
        None
    }
}

pub fn ad_paid_constraint(k: &str) -> (r: Option<TypeConstraint>)
    ensures
        r == spec_ad_paid_constraint(k@),
{
    if str_eq(k, "#ad_value") {
        Some(TypeConstraint::Number)
    } else if str_eq(k, "#ad_currency") {
        Some(TypeConstraint::String)
    } else if str_eq(k, "#ad_precision") {
        Some(TypeConstraint::String)
    } else if str_eq(k, "#ad_country_code") {
        Some(TypeConstraint::String)
    } else {
        None
    }
}

/// Source property of the ad-conversion event.
pub open spec fn spec_ad_conversion_constraint(k: Seq<char>) -> Option<TypeConstraint> {
    if k == "#ad_conversion_source"@ {
        Some(TypeConstraint::String)
    } else {
        None
    }
}

pub fn ad_conversion_constraint(k: &str) -> (r: Option<TypeConstraint>)
    ensures
        r == spec_ad_conversion_constraint(k@),
{
    if str_eq(k, "#ad_conversion_source") {
        Some(TypeConstraint::String)
    } else {
        None
    }
}

/// The preset-event table: which sigil-prefixed track event names exist.
pub open spec fn spec_is_preset_event(event: Seq<char>) -> bool {
    ||| event == "#app_install"@
    ||| event == "#session_start"@
    ||| event == "#session_end"@
    ||| event == "#ad_load_begin"@
    ||| event == "#ad_load_end"@
    ||| event == "#ad_to_show"@
    ||| event == "#ad_show"@
    ||| event == "#ad_show_failed"@
    ||| event == "#ad_close"@
    ||| event == "#ad_click"@
    ||| event == "#ad_rewarded"@
    ||| event == "#ad_conversion"@
    ||| event == "#ad_paid"@
    ||| event == "#iap_purchase_success"@
    ||| event == "#ias_subscribe_success"@
    ||| event == "#ias_subscribe_notify"@
}

pub fn is_preset_event(event: &str) -> (r: bool)
    ensures
        r == spec_is_preset_event(event@),
{
    str_eq(event, "#app_install") || str_eq(event, "#session_start") || str_eq(
        event,
        "#session_end",
    ) || str_eq(event, "#ad_load_begin") || str_eq(event, "#ad_load_end") || str_eq(
        event,
        "#ad_to_show",
    ) || str_eq(event, "#ad_show") || str_eq(event, "#ad_show_failed") || str_eq(
        event,
        "#ad_close",
    ) || str_eq(event, "#ad_click") || str_eq(event, "#ad_rewarded") || str_eq(
        event,
        "#ad_conversion",
    ) || str_eq(event, "#ad_paid") || str_eq(event, "#iap_purchase_success") || str_eq(
        event,
        "#ias_subscribe_success",
    ) || str_eq(event, "#ias_subscribe_notify")
}

/// The constraint a preset event's own schema puts on property `k`:
/// schemas are strictly per event name.
pub open spec fn spec_event_specific_constraint(event: Seq<char>, k: Seq<char>) -> Option<
    TypeConstraint,
> {
    if event == "#app_install"@ {
        spec_app_install_constraint(k)
    } else if event == "#session_start"@ {
        spec_session_start_constraint(k)
    } else if event == "#session_end"@ {
        spec_session_end_constraint(k)
    } else if event == "#ad_load_begin"@ {
        spec_ad_constraint(k)
    } else if event == "#ad_load_end"@ {
        spec_or_constraint(
            spec_ad_constraint(k),
            spec_or_constraint(spec_ad_load_end_constraint(k), spec_ad_failed_constraint(k)),
        )
    } else if event == "#ad_to_show"@ || event == "#ad_show"@ || event == "#ad_close"@ || event
        == "#ad_click"@ || event == "#ad_rewarded"@ {
        spec_or_constraint(spec_ad_constraint(k), spec_ad_placement_constraint(k))
    } else if event == "#ad_show_failed"@ {
        spec_or_constraint(
            spec_ad_constraint(k),
            spec_or_constraint(spec_ad_placement_constraint(k), spec_ad_failed_constraint(k)),
        )
    } else if event == "#ad_conversion"@ {
        spec_or_constraint(
            spec_ad_constraint(k),
            spec_or_constraint(spec_ad_placement_constraint(k), spec_ad_conversion_constraint(k)),
        )
    } else if event == "#ad_paid"@ {
        spec_or_constraint(
            spec_ad_constraint(k),
            spec_or_constraint(spec_ad_placement_constraint(k), spec_ad_paid_constraint(k)),
        )
    } else if event == "#iap_purchase_success"@ {
        spec_iap_constraint(k)
    } else if event == "#ias_subscribe_success"@ || event == "#ias_subscribe_notify"@ {
        spec_ias_constraint(k)
    } else {
        None
    }
}

pub fn event_specific_constraint(event: &str, k: &str) -> (r: Option<TypeConstraint>)
    ensures
        r == spec_event_specific_constraint(event@, k@),
{
    if str_eq(event, "#app_install") {
        app_install_constraint(k)
    } else if str_eq(event, "#session_start") {
        session_start_constraint(k)
    } else if str_eq(event, "#session_end") {
        session_end_constraint(k)
    } else if str_eq(event, "#ad_load_begin") {
        ad_constraint(k)
    } else if str_eq(event, "#ad_load_end") {
        or_constraint(
            ad_constraint(k),
            or_constraint(ad_load_end_constraint(k), ad_failed_constraint(k)),
        )
    } else if str_eq(event, "#ad_to_show") || str_eq(event, "#ad_show") || str_eq(
        event,
        "#ad_close",
    ) || str_eq(event, "#ad_click") || str_eq(event, "#ad_rewarded") {
        or_constraint(ad_constraint(k), ad_placement_constraint(k))
    } else if str_eq(event, "#ad_show_failed") {
        or_constraint(
            ad_constraint(k),
            or_constraint(ad_placement_constraint(k), ad_failed_constraint(k)),
        )
    } else if str_eq(event, "#ad_conversion") {
        or_constraint(
            ad_constraint(k),
            or_constraint(ad_placement_constraint(k), ad_conversion_constraint(k)),
        )
    } else if str_eq(event, "#ad_paid") {
        or_constraint(
            ad_constraint(k),
            or_constraint(ad_placement_constraint(k), ad_paid_constraint(k)),
        )
    } else if str_eq(event, "#iap_purchase_success") {
        iap_constraint(k)
    } else if str_eq(event, "#ias_subscribe_success") || str_eq(event, "#ias_subscribe_notify") {
        ias_constraint(k)
    } else {
        None
    }
}

fn or_constraint(a: Option<TypeConstraint>, b: Option<TypeConstraint>) -> (r: Option<
    TypeConstraint,
>)
    ensures
        r == spec_or_constraint(a, b),
{
    if a.is_some() {
        a
    } else {
        b
    }
}

/// The constraint on property `k` of a track event named `event`:
/// the event's own schema first, then the shared preset schema,
/// then the SDK identification pair.
pub open spec fn spec_track_constraint(event: Seq<char>, k: Seq<char>) -> Option<TypeConstraint> {
    spec_or_constraint(
        spec_event_specific_constraint(event, k),
        spec_or_constraint(spec_preset_common_constraint(k), spec_common_constraint(k)),
    )
}

/// Mirrors the schema chain for one track event: its own schema, the
/// shared preset schema, then the SDK identification pair.
pub fn find_constraint_for_event(event: &str, k: &str) -> (r: Option<TypeConstraint>)
    ensures
        r == spec_track_constraint(event@, k@),
{
    or_constraint(
        event_specific_constraint(event, k),
        or_constraint(preset_common_constraint(k), common_constraint(k)),
    )
}

/// The constraint on property `k` of a user event: the user schema
/// first, then the SDK identification pair.
pub open spec fn spec_user_constraint(k: Seq<char>) -> Option<TypeConstraint> {
    spec_or_constraint(spec_user_common_constraint(k), spec_common_constraint(k))
}

pub fn find_constraint_for_user_event(k: &str) -> (r: Option<TypeConstraint>)
    ensures
        r == spec_user_constraint(k@),
{
    or_constraint(user_common_constraint(k), common_constraint(k))
}

/// The meta keys every event must carry.
pub open spec fn spec_compulsory_metas() -> Seq<Seq<char>> {
    seq![
        "#app_id"@,
        "#bundle_id"@,
        "#dt_id"@,
        "#event_time"@,
        "#event_name"@,
        "#event_type"@,
        "#event_syn"@,
        "properties"@,
    ]
}

} // verus!
