//! How AWS is reached.
use vstd::prelude::*;

verus! {

/// The version of the behavior of the AWS SDK that a configuration is bound to.
#[derive(Clone, Copy, Debug, PartialEq, Eq, Structural)]
pub enum SdkBehavior {
    /// The behavior as of 12 January 2026
    V2026_01_12,
}

/// What is asked of the AWS configuration beyond what the environment says.
#[derive(Debug, PartialEq, Eq)]
pub struct AwsSettings {
    /// Region to use where the environment names none
    pub fallback_region: &'static str,
    /// Profile to use in place of the one that the environment names
    pub profile_name: Option<String>,
    /// Version of the behavior of the SDK
    pub behavior_version: SdkBehavior,
}

/// Whether the settings are those for a profile, or for the one that the environment names.
pub open spec fn settings_for(profile_name: Option<String>, settings: AwsSettings) -> bool {
    &&& settings.fallback_region@ == "ap-southeast-2"@
    &&& settings.profile_name == profile_name
    &&& settings.behavior_version == SdkBehavior::V2026_01_12
}

/// The AWS settings for the profile that the environment names.
pub fn aws_config() -> (settings: AwsSettings)
    ensures
        settings_for(None, settings),
{
    AwsSettings {
        fallback_region: "ap-southeast-2",
        profile_name: None,
        behavior_version: SdkBehavior::V2026_01_12,
    }
}

/// The AWS settings for a specific profile.
pub fn aws_config_with_profile(profile_name: String) -> (settings: AwsSettings)
    ensures
        settings_for(Some(profile_name), settings),
{
    AwsSettings {
        fallback_region: "ap-southeast-2",
        profile_name: Some(profile_name),
        behavior_version: SdkBehavior::V2026_01_12,
    }
}

/// Choosing a profile, or none, moves neither the fallback region nor the behavior version.
pub proof fn profile_changes_nothing_else(
    p: Option<String>,
    q: Option<String>,
    a: AwsSettings,
    b: AwsSettings,
)
    requires
        settings_for(p, a),
        settings_for(q, b),
    ensures
        a.fallback_region@ == b.fallback_region@,
        a.behavior_version == b.behavior_version,
{
}

/// The settings use the profile that was chosen and no other, or none where none was; in any case
/// they fall back to the same region.
pub proof fn settings_use_the_profile(profile_name: Option<String>, settings: AwsSettings)
    requires
        settings_for(profile_name, settings),
    ensures
        settings.profile_name is Some <==> profile_name is Some,
        profile_name matches Some(chosen) ==> settings.profile_name->0 == chosen,
        settings.fallback_region@ == "ap-southeast-2"@,
        settings.behavior_version == SdkBehavior::V2026_01_12,
{
}

/// Different profiles have different settings.
pub proof fn profiles_are_told_apart(
    p: Option<String>,
    q: Option<String>,
    settings: AwsSettings,
)
    requires
        settings_for(p, settings),
        settings_for(q, settings),
    ensures
        p == q,
{
}

/// The settings for a specific profile use it, and those without one use none.
pub proof fn profile_is_used_where_given(profile_name: String, a: AwsSettings, b: AwsSettings)
    requires
        call_ensures(aws_config_with_profile, (profile_name,), a),
        call_ensures(aws_config, (), b),
    ensures
        a.profile_name == Some(profile_name),
        b.profile_name is None,
        a.fallback_region@ == "ap-southeast-2"@,
        b.fallback_region@ == a.fallback_region@,
        b.behavior_version == a.behavior_version,
{
}

} // verus!
