//! Paths of the named pages, for links in templates.
use vstd::prelude::*;

use crate::text::owned;

verus! {

/// Path of the page named `name`.
pub open spec fn route_path(name: Seq<char>) -> Option<Seq<char>> {
    if name == "index"@ {
        Some("/"@)
    } else if name == "health"@ {
        Some("/health"@)
    } else if name == "settings"@ {
        Some("/settings"@)
    } else if name == "apply_settings"@ {
        Some("/settings/apply"@)
    } else if name == "test_connection"@ {
        Some("/settings/test"@)
    } else if name == "reset_settings"@ {
        Some("/settings/reset"@)
    } else if name == "get_ports"@ {
        Some("/settings/ports"@)
    } else if name == "validate_settings"@ {
        Some("/settings/validate"@)
    } else if name == "diagnostics"@ {
        Some("/diagnostics"@)
    } else if name == "view_raw"@ {
        Some("/view/raw"@)
    } else if name == "view_metrics"@ {
        Some("/view/metrics"@)
    } else if name == "view_latest_raw"@ {
        Some("/view/latest-raw"@)
    } else if name == "view_all_metrics"@ {
        Some("/view/all-metrics"@)
    } else if name == "view_diagnostics"@ {
        Some("/view/diagnostics"@)
    } else if name == "view_csv"@ {
        Some("/view/csv"@)
    } else {
        None
    }
}

pub fn route_for(name: &str) -> (r: Option<String>)
    ensures
        match r {
            Some(p) => route_path(name@) == Some(p@),
            None => route_path(name@) is None,
        },
{
    let n = owned(name);
    if n == owned("index") {
        Some(owned("/"))
    } else if n == owned("health") {
        Some(owned("/health"))
    } else if n == owned("settings") {
        Some(owned("/settings"))
    } else if n == owned("apply_settings") {
        Some(owned("/settings/apply"))
    } else if n == owned("test_connection") {
        Some(owned("/settings/test"))
    } else if n == owned("reset_settings") {
        Some(owned("/settings/reset"))
    } else if n == owned("get_ports") {
        Some(owned("/settings/ports"))
    } else if n == owned("validate_settings") {
        Some(owned("/settings/validate"))
    } else if n == owned("diagnostics") {
        Some(owned("/diagnostics"))
    } else if n == owned("view_raw") {
        Some(owned("/view/raw"))
    } else if n == owned("view_metrics") {
        Some(owned("/view/metrics"))
    } else if n == owned("view_latest_raw") {
        Some(owned("/view/latest-raw"))
    } else if n == owned("view_all_metrics") {
        Some(owned("/view/all-metrics"))
    } else if n == owned("view_diagnostics") {
        Some(owned("/view/diagnostics"))
    } else if n == owned("view_csv") {
        Some(owned("/view/csv"))
    } else {
        None
    }
}

} // verus!
