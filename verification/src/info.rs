//! The read-only queries: what the application says of itself and of the
//! system it runs on.

use crate::envelope::ApiResponse;
use vstd::prelude::*;

verus! {

/// The application's name.
pub const APP_NAME: &'static str = "Workix Desktop";

/// The application's version.
pub const APP_VERSION: &'static str = "0.1.0";

/// What the application is.
pub const APP_DESCRIPTION: &'static str = "EPC Service Management Platform";

/// The application's descriptor.
#[derive(Debug, Clone)]
pub struct AppInfo {
    pub name: String,
    pub version: String,
    pub description: String,
    pub platform: String,
    pub arch: String,
}

/// The descriptor of the system the application runs on.
#[derive(Debug, Clone)]
pub struct SystemInfo {
    pub os: String,
    pub arch: String,
    pub family: String,
}

/// The content of an [`AppInfo`].
pub struct AppInfoView {
    pub name: Seq<char>,
    pub version: Seq<char>,
    pub description: Seq<char>,
    pub platform: Seq<char>,
    pub arch: Seq<char>,
}

/// The content of a [`SystemInfo`].
pub struct SystemInfoView {
    pub os: Seq<char>,
    pub arch: Seq<char>,
    pub family: Seq<char>,
}

impl View for AppInfo {
    type V = AppInfoView;

    open spec fn view(&self) -> AppInfoView {
        AppInfoView {
            name: self.name@,
            version: self.version@,
            description: self.description@,
            platform: self.platform@,
            arch: self.arch@,
        }
    }
}

impl View for SystemInfo {
    type V = SystemInfoView;

    open spec fn view(&self) -> SystemInfoView {
        SystemInfoView { os: self.os@, arch: self.arch@, family: self.family@ }
    }
}

/// The application's version.
pub fn get_app_version() -> (version: String)
    ensures
        version@ == APP_VERSION@,
{
    APP_VERSION.to_owned()
}

/// Describes the application on the given platform and architecture. The
/// answer is always a success.
pub fn get_app_info(platform: &str, arch: &str) -> (r: ApiResponse<AppInfo>)
    ensures
        r.success,
        r.error is None,
        r.data matches Some(info) && info@ == (AppInfoView {
            name: APP_NAME@,
            version: APP_VERSION@,
            description: APP_DESCRIPTION@,
            platform: platform@,
            arch: arch@,
        }),
{
    ApiResponse::with_data(
        AppInfo {
            name: APP_NAME.to_owned(),
            version: APP_VERSION.to_owned(),
            description: APP_DESCRIPTION.to_owned(),
            platform: platform.to_owned(),
            arch: arch.to_owned(),
        },
    )
}

/// Describes the system by its operating system, architecture and family.
/// The answer is always a success.
pub fn get_system_info(os: &str, arch: &str, family: &str) -> (r: ApiResponse<SystemInfo>)
    ensures
        r.success,
        r.error is None,
        r.data matches Some(info) && info@ == (SystemInfoView {
            os: os@,
            arch: arch@,
            family: family@,
        }),
{
    ApiResponse::with_data(
        SystemInfo { os: os.to_owned(), arch: arch.to_owned(), family: family.to_owned() },
    )
}

} // verus!
