use vstd::prelude::*;

use crate::config::types::{Duration, FileSize};
use crate::config::validators::{PositiveU32, ThumbnailGrid, ThumbnailSize};
use crate::config::values::{DurationValue, FileSizeValue};
use crate::config_type::ConfigType;
use crate::error::{ConfigError, ConfigErrorView};
use crate::fields::{apply_outcome, apply_value, field_check, validate_field};
use crate::optionality::{Optional, Required};
use crate::config::types::duration::lemma_duration_reads_back;
use crate::config::types::file_size::lemma_file_size_reads_back;
use crate::config::values::{parse_duration_spec, parse_file_size_spec};
use crate::helpers::csv_items;
use crate::strings::{is_none_word, owned, parse_integer_spec, str_eq};
use crate::types::list::lemma_list_reads_back;
use crate::types::number::lemma_u32_reads_back;
use crate::types::text::lemma_text_reads_back;
use crate::types::{List, Text, U32};
use crate::validator::NoValidation;

verus! {

/// The sections of the settings, in the order they are listed.
#[derive(Clone, Copy, Debug, PartialEq, Eq, Structural)]
#[allow(non_camel_case_types)]
pub enum ConfigCategory {
    monitoring,
    video,
    post_processing,
    uploads,
    thumbnails,
    notifications,
    storage,
}

/// The settings, in the order they are listed.
#[derive(Clone, Copy, Debug, PartialEq, Eq, Structural)]
#[allow(non_camel_case_types)]
pub enum ConfigKey {
    monitors,
    min_stream_duration,
    stream_reconnect_delay,
    stream_metadata_refresh_interval,
    monitor_spawn_delay,
    step_delay,
    fetch_interval,
    video_quality,
    video_bitrate,
    max_bitrate,
    max_fps,
    title_clean_regex,
    max_upload_retries,
    disabled_uploaders,
    thumbnail_size,
    thumbnail_grid,
    discord_webhook_url,
    upload_complete_message_template,
    output_directory,
    min_free_space,
    retention_max_age,
    retention_keep_latest_per_user,
}

impl ConfigCategory {
    /// The section's name.
    pub open spec fn spec_name(self) -> Seq<char> {
        match self {
            ConfigCategory::monitoring => "monitoring"@,
            ConfigCategory::video => "video"@,
            ConfigCategory::post_processing => "post_processing"@,
            ConfigCategory::uploads => "uploads"@,
            ConfigCategory::thumbnails => "thumbnails"@,
            ConfigCategory::notifications => "notifications"@,
            ConfigCategory::storage => "storage"@,
        }
    }

    /// The section's name.
    pub fn as_str(&self) -> (r: &'static str)
        ensures
            r@ == self.spec_name(),
    {
        match self {
            ConfigCategory::monitoring => "monitoring",
            ConfigCategory::video => "video",
            ConfigCategory::post_processing => "post_processing",
            ConfigCategory::uploads => "uploads",
            ConfigCategory::thumbnails => "thumbnails",
            ConfigCategory::notifications => "notifications",
            ConfigCategory::storage => "storage",
        }
    }

    /// Every section, in order.
    pub open spec fn spec_all() -> Seq<ConfigCategory> {
        seq![ConfigCategory::monitoring, ConfigCategory::video, ConfigCategory::post_processing, ConfigCategory::uploads, ConfigCategory::thumbnails, ConfigCategory::notifications, ConfigCategory::storage
        ]
    }

    /// Every section, in order.
    pub fn all() -> (r: Vec<ConfigCategory>)
        ensures
            r@ == Self::spec_all(),
    {
        let r = vec![ConfigCategory::monitoring, ConfigCategory::video, ConfigCategory::post_processing, ConfigCategory::uploads, ConfigCategory::thumbnails, ConfigCategory::notifications, ConfigCategory::storage];
        assert(r@ =~= Self::spec_all());
        r
    }

    /// The settings of the section, in order.
    pub open spec fn spec_keys(self) -> Seq<ConfigKey> {
        match self {
            ConfigCategory::monitoring => seq![ConfigKey::monitors, ConfigKey::min_stream_duration, ConfigKey::stream_reconnect_delay, ConfigKey::stream_metadata_refresh_interval, ConfigKey::monitor_spawn_delay, ConfigKey::step_delay, ConfigKey::fetch_interval],
            ConfigCategory::video => seq![ConfigKey::video_quality, ConfigKey::video_bitrate, ConfigKey::max_bitrate, ConfigKey::max_fps],
            ConfigCategory::post_processing => seq![ConfigKey::title_clean_regex],
            ConfigCategory::uploads => seq![ConfigKey::max_upload_retries, ConfigKey::disabled_uploaders],
            ConfigCategory::thumbnails => seq![ConfigKey::thumbnail_size, ConfigKey::thumbnail_grid],
            ConfigCategory::notifications => seq![ConfigKey::discord_webhook_url, ConfigKey::upload_complete_message_template],
            ConfigCategory::storage => seq![ConfigKey::output_directory, ConfigKey::min_free_space, ConfigKey::retention_max_age, ConfigKey::retention_keep_latest_per_user],
        }
    }

    /// The settings of the section, in order.
    pub fn keys(&self) -> (r: Vec<ConfigKey>)
        ensures
            r@ == self.spec_keys(),
    {
        let r = match self {
            ConfigCategory::monitoring => vec![ConfigKey::monitors, ConfigKey::min_stream_duration, ConfigKey::stream_reconnect_delay, ConfigKey::stream_metadata_refresh_interval, ConfigKey::monitor_spawn_delay, ConfigKey::step_delay, ConfigKey::fetch_interval],
            ConfigCategory::video => vec![ConfigKey::video_quality, ConfigKey::video_bitrate, ConfigKey::max_bitrate, ConfigKey::max_fps],
            ConfigCategory::post_processing => vec![ConfigKey::title_clean_regex],
            ConfigCategory::uploads => vec![ConfigKey::max_upload_retries, ConfigKey::disabled_uploaders],
            ConfigCategory::thumbnails => vec![ConfigKey::thumbnail_size, ConfigKey::thumbnail_grid],
            ConfigCategory::notifications => vec![ConfigKey::discord_webhook_url, ConfigKey::upload_complete_message_template],
            ConfigCategory::storage => vec![ConfigKey::output_directory, ConfigKey::min_free_space, ConfigKey::retention_max_age, ConfigKey::retention_keep_latest_per_user],
        };
        assert(r@ =~= self.spec_keys());
        r
    }

    /// The section's name as a title: its `_`-separated words capitalized and joined by
    /// spaces.
    pub fn display_name(&self) -> (r: String)
        ensures
            r@ == crate::config::display_title(self.spec_name()),
    {
        crate::config::title_of(self.as_str())
    }
}

impl ConfigKey {
    /// The setting's name.
    pub open spec fn spec_name(self) -> Seq<char> {
        match self {
            ConfigKey::monitors => "monitors"@,
            ConfigKey::min_stream_duration => "min_stream_duration"@,
            ConfigKey::stream_reconnect_delay => "stream_reconnect_delay"@,
            ConfigKey::stream_metadata_refresh_interval => "stream_metadata_refresh_interval"@,
            ConfigKey::monitor_spawn_delay => "monitor_spawn_delay"@,
            ConfigKey::step_delay => "step_delay"@,
            ConfigKey::fetch_interval => "fetch_interval"@,
            ConfigKey::video_quality => "video_quality"@,
            ConfigKey::video_bitrate => "video_bitrate"@,
            ConfigKey::max_bitrate => "max_bitrate"@,
            ConfigKey::max_fps => "max_fps"@,
            ConfigKey::title_clean_regex => "title_clean_regex"@,
            ConfigKey::max_upload_retries => "max_upload_retries"@,
            ConfigKey::disabled_uploaders => "disabled_uploaders"@,
            ConfigKey::thumbnail_size => "thumbnail_size"@,
            ConfigKey::thumbnail_grid => "thumbnail_grid"@,
            ConfigKey::discord_webhook_url => "discord_webhook_url"@,
            ConfigKey::upload_complete_message_template => "upload_complete_message_template"@,
            ConfigKey::output_directory => "output_directory"@,
            ConfigKey::min_free_space => "min_free_space"@,
            ConfigKey::retention_max_age => "retention_max_age"@,
            ConfigKey::retention_keep_latest_per_user => "retention_keep_latest_per_user"@,
        }
    }

    /// The setting's name.
    pub fn as_str(&self) -> (r: &'static str)
        ensures
            r@ == self.spec_name(),
    {
        match self {
            ConfigKey::monitors => "monitors",
            ConfigKey::min_stream_duration => "min_stream_duration",
            ConfigKey::stream_reconnect_delay => "stream_reconnect_delay",
            ConfigKey::stream_metadata_refresh_interval => "stream_metadata_refresh_interval",
            ConfigKey::monitor_spawn_delay => "monitor_spawn_delay",
            ConfigKey::step_delay => "step_delay",
            ConfigKey::fetch_interval => "fetch_interval",
            ConfigKey::video_quality => "video_quality",
            ConfigKey::video_bitrate => "video_bitrate",
            ConfigKey::max_bitrate => "max_bitrate",
            ConfigKey::max_fps => "max_fps",
            ConfigKey::title_clean_regex => "title_clean_regex",
            ConfigKey::max_upload_retries => "max_upload_retries",
            ConfigKey::disabled_uploaders => "disabled_uploaders",
            ConfigKey::thumbnail_size => "thumbnail_size",
            ConfigKey::thumbnail_grid => "thumbnail_grid",
            ConfigKey::discord_webhook_url => "discord_webhook_url",
            ConfigKey::upload_complete_message_template => "upload_complete_message_template",
            ConfigKey::output_directory => "output_directory",
            ConfigKey::min_free_space => "min_free_space",
            ConfigKey::retention_max_age => "retention_max_age",
            ConfigKey::retention_keep_latest_per_user => "retention_keep_latest_per_user",
        }
    }

    /// The setting named `s`, if any.
    pub open spec fn spec_from_key(s: Seq<char>) -> Option<ConfigKey> {
        if s == "monitors"@ {
            Some(ConfigKey::monitors)
        }         else if s == "min_stream_duration"@ {
            Some(ConfigKey::min_stream_duration)
        }         else if s == "stream_reconnect_delay"@ {
            Some(ConfigKey::stream_reconnect_delay)
        }         else if s == "stream_metadata_refresh_interval"@ {
            Some(ConfigKey::stream_metadata_refresh_interval)
        }         else if s == "monitor_spawn_delay"@ {
            Some(ConfigKey::monitor_spawn_delay)
        }         else if s == "step_delay"@ {
            Some(ConfigKey::step_delay)
        }         else if s == "fetch_interval"@ {
            Some(ConfigKey::fetch_interval)
        }         else if s == "video_quality"@ {
            Some(ConfigKey::video_quality)
        }         else if s == "video_bitrate"@ {
            Some(ConfigKey::video_bitrate)
        }         else if s == "max_bitrate"@ {
            Some(ConfigKey::max_bitrate)
        }         else if s == "max_fps"@ {
            Some(ConfigKey::max_fps)
        }         else if s == "title_clean_regex"@ {
            Some(ConfigKey::title_clean_regex)
        }         else if s == "max_upload_retries"@ {
            Some(ConfigKey::max_upload_retries)
        }         else if s == "disabled_uploaders"@ {
            Some(ConfigKey::disabled_uploaders)
        }         else if s == "thumbnail_size"@ {
            Some(ConfigKey::thumbnail_size)
        }         else if s == "thumbnail_grid"@ {
            Some(ConfigKey::thumbnail_grid)
        }         else if s == "discord_webhook_url"@ {
            Some(ConfigKey::discord_webhook_url)
        }         else if s == "upload_complete_message_template"@ {
            Some(ConfigKey::upload_complete_message_template)
        }         else if s == "output_directory"@ {
            Some(ConfigKey::output_directory)
        }         else if s == "min_free_space"@ {
            Some(ConfigKey::min_free_space)
        }         else if s == "retention_max_age"@ {
            Some(ConfigKey::retention_max_age)
        }         else if s == "retention_keep_latest_per_user"@ {
            Some(ConfigKey::retention_keep_latest_per_user)
        } else {
            None
        }
    }

    /// Look up a setting by name.
    pub fn from_key(s: &str) -> (r: Option<ConfigKey>)
        ensures
            r == Self::spec_from_key(s@),
    {
        if str_eq(s, "monitors") {
            Some(ConfigKey::monitors)
        }         else if str_eq(s, "min_stream_duration") {
            Some(ConfigKey::min_stream_duration)
        }         else if str_eq(s, "stream_reconnect_delay") {
            Some(ConfigKey::stream_reconnect_delay)
        }         else if str_eq(s, "stream_metadata_refresh_interval") {
            Some(ConfigKey::stream_metadata_refresh_interval)
        }         else if str_eq(s, "monitor_spawn_delay") {
            Some(ConfigKey::monitor_spawn_delay)
        }         else if str_eq(s, "step_delay") {
            Some(ConfigKey::step_delay)
        }         else if str_eq(s, "fetch_interval") {
            Some(ConfigKey::fetch_interval)
        }         else if str_eq(s, "video_quality") {
            Some(ConfigKey::video_quality)
        }         else if str_eq(s, "video_bitrate") {
            Some(ConfigKey::video_bitrate)
        }         else if str_eq(s, "max_bitrate") {
            Some(ConfigKey::max_bitrate)
        }         else if str_eq(s, "max_fps") {
            Some(ConfigKey::max_fps)
        }         else if str_eq(s, "title_clean_regex") {
            Some(ConfigKey::title_clean_regex)
        }         else if str_eq(s, "max_upload_retries") {
            Some(ConfigKey::max_upload_retries)
        }         else if str_eq(s, "disabled_uploaders") {
            Some(ConfigKey::disabled_uploaders)
        }         else if str_eq(s, "thumbnail_size") {
            Some(ConfigKey::thumbnail_size)
        }         else if str_eq(s, "thumbnail_grid") {
            Some(ConfigKey::thumbnail_grid)
        }         else if str_eq(s, "discord_webhook_url") {
            Some(ConfigKey::discord_webhook_url)
        }         else if str_eq(s, "upload_complete_message_template") {
            Some(ConfigKey::upload_complete_message_template)
        }         else if str_eq(s, "output_directory") {
            Some(ConfigKey::output_directory)
        }         else if str_eq(s, "min_free_space") {
            Some(ConfigKey::min_free_space)
        }         else if str_eq(s, "retention_max_age") {
            Some(ConfigKey::retention_max_age)
        }         else if str_eq(s, "retention_keep_latest_per_user") {
            Some(ConfigKey::retention_keep_latest_per_user)
        } else {
            None
        }
    }

    /// Every setting, in order.
    pub open spec fn spec_all() -> Seq<ConfigKey> {
        seq![ConfigKey::monitors, ConfigKey::min_stream_duration, ConfigKey::stream_reconnect_delay, ConfigKey::stream_metadata_refresh_interval, ConfigKey::monitor_spawn_delay, ConfigKey::step_delay, ConfigKey::fetch_interval, ConfigKey::video_quality, ConfigKey::video_bitrate, ConfigKey::max_bitrate, ConfigKey::max_fps, ConfigKey::title_clean_regex, ConfigKey::max_upload_retries, ConfigKey::disabled_uploaders, ConfigKey::thumbnail_size, ConfigKey::thumbnail_grid, ConfigKey::discord_webhook_url, ConfigKey::upload_complete_message_template, ConfigKey::output_directory, ConfigKey::min_free_space, ConfigKey::retention_max_age, ConfigKey::retention_keep_latest_per_user
        ]
    }

    /// Every setting, in order.
    pub fn all() -> (r: Vec<ConfigKey>)
        ensures
            r@ == Self::spec_all(),
    {
        let r = vec![ConfigKey::monitors, ConfigKey::min_stream_duration, ConfigKey::stream_reconnect_delay, ConfigKey::stream_metadata_refresh_interval, ConfigKey::monitor_spawn_delay, ConfigKey::step_delay, ConfigKey::fetch_interval, ConfigKey::video_quality, ConfigKey::video_bitrate, ConfigKey::max_bitrate, ConfigKey::max_fps, ConfigKey::title_clean_regex, ConfigKey::max_upload_retries, ConfigKey::disabled_uploaders, ConfigKey::thumbnail_size, ConfigKey::thumbnail_grid, ConfigKey::discord_webhook_url, ConfigKey::upload_complete_message_template, ConfigKey::output_directory, ConfigKey::min_free_space, ConfigKey::retention_max_age, ConfigKey::retention_keep_latest_per_user];
        assert(r@ =~= Self::spec_all());
        r
    }

    /// The section of the setting; `None` for a setting outside every section.
    pub open spec fn spec_category(self) -> Option<ConfigCategory> {
        match self {
            ConfigKey::monitors => Some(ConfigCategory::monitoring),
            ConfigKey::min_stream_duration => Some(ConfigCategory::monitoring),
            ConfigKey::stream_reconnect_delay => Some(ConfigCategory::monitoring),
            ConfigKey::stream_metadata_refresh_interval => Some(ConfigCategory::monitoring),
            ConfigKey::monitor_spawn_delay => Some(ConfigCategory::monitoring),
            ConfigKey::step_delay => Some(ConfigCategory::monitoring),
            ConfigKey::fetch_interval => Some(ConfigCategory::monitoring),
            ConfigKey::video_quality => Some(ConfigCategory::video),
            ConfigKey::video_bitrate => Some(ConfigCategory::video),
            ConfigKey::max_bitrate => Some(ConfigCategory::video),
            ConfigKey::max_fps => Some(ConfigCategory::video),
            ConfigKey::title_clean_regex => Some(ConfigCategory::post_processing),
            ConfigKey::max_upload_retries => Some(ConfigCategory::uploads),
            ConfigKey::disabled_uploaders => Some(ConfigCategory::uploads),
            ConfigKey::thumbnail_size => Some(ConfigCategory::thumbnails),
            ConfigKey::thumbnail_grid => Some(ConfigCategory::thumbnails),
            ConfigKey::discord_webhook_url => Some(ConfigCategory::notifications),
            ConfigKey::upload_complete_message_template => Some(ConfigCategory::notifications),
            ConfigKey::output_directory => Some(ConfigCategory::storage),
            ConfigKey::min_free_space => Some(ConfigCategory::storage),
            ConfigKey::retention_max_age => Some(ConfigCategory::storage),
            ConfigKey::retention_keep_latest_per_user => Some(ConfigCategory::storage),
        }
    }

    /// The section the setting belongs to, if any.
    pub fn category(&self) -> (r: Option<ConfigCategory>)
        ensures
            r == self.spec_category(),
    {
        match self {
            ConfigKey::monitors => Some(ConfigCategory::monitoring),
            ConfigKey::min_stream_duration => Some(ConfigCategory::monitoring),
            ConfigKey::stream_reconnect_delay => Some(ConfigCategory::monitoring),
            ConfigKey::stream_metadata_refresh_interval => Some(ConfigCategory::monitoring),
            ConfigKey::monitor_spawn_delay => Some(ConfigCategory::monitoring),
            ConfigKey::step_delay => Some(ConfigCategory::monitoring),
            ConfigKey::fetch_interval => Some(ConfigCategory::monitoring),
            ConfigKey::video_quality => Some(ConfigCategory::video),
            ConfigKey::video_bitrate => Some(ConfigCategory::video),
            ConfigKey::max_bitrate => Some(ConfigCategory::video),
            ConfigKey::max_fps => Some(ConfigCategory::video),
            ConfigKey::title_clean_regex => Some(ConfigCategory::post_processing),
            ConfigKey::max_upload_retries => Some(ConfigCategory::uploads),
            ConfigKey::disabled_uploaders => Some(ConfigCategory::uploads),
            ConfigKey::thumbnail_size => Some(ConfigCategory::thumbnails),
            ConfigKey::thumbnail_grid => Some(ConfigCategory::thumbnails),
            ConfigKey::discord_webhook_url => Some(ConfigCategory::notifications),
            ConfigKey::upload_complete_message_template => Some(ConfigCategory::notifications),
            ConfigKey::output_directory => Some(ConfigCategory::storage),
            ConfigKey::min_free_space => Some(ConfigCategory::storage),
            ConfigKey::retention_max_age => Some(ConfigCategory::storage),
            ConfigKey::retention_keep_latest_per_user => Some(ConfigCategory::storage),
        }
    }
}

/// The settings as stored: one entry per setting, `None` where the default applies.
#[derive(Clone, Debug)]
pub struct Config {
    pub monitors: Option<Vec<String>>,
    pub min_stream_duration: Option<DurationValue>,
    pub stream_reconnect_delay: Option<DurationValue>,
    pub stream_metadata_refresh_interval: Option<DurationValue>,
    pub monitor_spawn_delay: Option<DurationValue>,
    pub step_delay: Option<DurationValue>,
    pub fetch_interval: Option<DurationValue>,
    // No validator is defined in this crate for `video_quality`, `video_bitrate` and
    // `max_bitrate`: any value that parses is accepted.
    pub video_quality: Option<u32>,
    pub video_bitrate: Option<String>,
    pub max_bitrate: Option<String>,
    pub max_fps: Option<u32>,
    // No validator is defined in this crate for `title_clean_regex`: the expressions are
    // accepted without being compiled.
    pub title_clean_regex: Option<Vec<String>>,
    pub max_upload_retries: Option<u32>,
    pub disabled_uploaders: Option<Vec<String>>,
    pub thumbnail_size: Option<String>,
    pub thumbnail_grid: Option<String>,
    // No validator is defined in this crate for `discord_webhook_url`: any text is accepted.
    pub discord_webhook_url: Option<String>,
    pub upload_complete_message_template: Option<String>,
    pub output_directory: Option<String>,
    pub min_free_space: Option<FileSizeValue>,
    pub retention_max_age: Option<DurationValue>,
    pub retention_keep_latest_per_user: Option<u32>,
}

impl Default for Config {
    fn default() -> (r: Config)
        ensures
            r == Config::spec_unset(),
    {
        Config {
            monitors: None,
            min_stream_duration: None,
            stream_reconnect_delay: None,
            stream_metadata_refresh_interval: None,
            monitor_spawn_delay: None,
            step_delay: None,
            fetch_interval: None,
            video_quality: None,
            video_bitrate: None,
            max_bitrate: None,
            max_fps: None,
            title_clean_regex: None,
            max_upload_retries: None,
            disabled_uploaders: None,
            thumbnail_size: None,
            thumbnail_grid: None,
            discord_webhook_url: None,
            upload_complete_message_template: None,
            output_directory: None,
            min_free_space: None,
            retention_max_age: None,
            retention_keep_latest_per_user: None,
        }
    }
}

impl Config {
    /// The settings with nothing stored.
    pub open spec fn spec_unset() -> Config {
        Config {
            monitors: None,
            min_stream_duration: None,
            stream_reconnect_delay: None,
            stream_metadata_refresh_interval: None,
            monitor_spawn_delay: None,
            step_delay: None,
            fetch_interval: None,
            video_quality: None,
            video_bitrate: None,
            max_bitrate: None,
            max_fps: None,
            title_clean_regex: None,
            max_upload_retries: None,
            disabled_uploaders: None,
            thumbnail_size: None,
            thumbnail_grid: None,
            discord_webhook_url: None,
            upload_complete_message_template: None,
            output_directory: None,
            min_free_space: None,
            retention_max_age: None,
            retention_keep_latest_per_user: None,
        }
    }

    /// The default of `monitors`.
    pub open spec fn spec_default_monitors() -> Seq<Seq<char>> {
        Seq::<Seq<char>>::empty()
    }

    fn default_monitors() -> (r: Vec<String>)
        ensures
            r.deep_view() == Self::spec_default_monitors(),
    {
        let r: Vec<String> = Vec::new();
        assert(r.deep_view() =~= Seq::<Seq<char>>::empty());
        r
    }

    /// The default of `min_stream_duration`.
    pub open spec fn spec_default_min_stream_duration() -> Option<u64> {
        None
    }

    fn default_min_stream_duration() -> (r: Option<DurationValue>)
        ensures
            r.deep_view() == Self::spec_default_min_stream_duration(),
    {
        None
    }

    /// The default of `stream_reconnect_delay`.
    pub open spec fn spec_default_stream_reconnect_delay() -> Option<u64> {
        None
    }

    fn default_stream_reconnect_delay() -> (r: Option<DurationValue>)
        ensures
            r.deep_view() == Self::spec_default_stream_reconnect_delay(),
    {
        None
    }

    /// The default of `stream_metadata_refresh_interval`.
    pub open spec fn spec_default_stream_metadata_refresh_interval() -> Option<u64> {
        None
    }

    fn default_stream_metadata_refresh_interval() -> (r: Option<DurationValue>)
        ensures
            r.deep_view() == Self::spec_default_stream_metadata_refresh_interval(),
    {
        None
    }

    /// The default of `monitor_spawn_delay`.
    pub open spec fn spec_default_monitor_spawn_delay() -> u64 {
        10000u64
    }

    fn default_monitor_spawn_delay() -> (r: DurationValue)
        ensures
            r.deep_view() == Self::spec_default_monitor_spawn_delay(),
    {
        DurationValue::from_secs(10)
    }

    /// The default of `step_delay`.
    pub open spec fn spec_default_step_delay() -> u64 {
        500u64
    }

    fn default_step_delay() -> (r: DurationValue)
        ensures
            r.deep_view() == Self::spec_default_step_delay(),
    {
        DurationValue::from_millis(500)
    }

    /// The default of `fetch_interval`.
    pub open spec fn spec_default_fetch_interval() -> u64 {
        120000u64
    }

    fn default_fetch_interval() -> (r: DurationValue)
        ensures
            r.deep_view() == Self::spec_default_fetch_interval(),
    {
        DurationValue::from_secs(120)
    }

    /// The default of `video_quality`.
    pub open spec fn spec_default_video_quality() -> u32 {
        26u32
    }

    fn default_video_quality() -> (r: u32)
        ensures
            r.deep_view() == Self::spec_default_video_quality(),
    {
        26u32
    }

    /// The default of `video_bitrate`.
    pub open spec fn spec_default_video_bitrate() -> Option<Seq<char>> {
        None
    }

    fn default_video_bitrate() -> (r: Option<String>)
        ensures
            r.deep_view() == Self::spec_default_video_bitrate(),
    {
        None
    }

    /// The default of `max_bitrate`.
    pub open spec fn spec_default_max_bitrate() -> Option<Seq<char>> {
        None
    }

    fn default_max_bitrate() -> (r: Option<String>)
        ensures
            r.deep_view() == Self::spec_default_max_bitrate(),
    {
        None
    }

    /// The default of `max_fps`.
    pub open spec fn spec_default_max_fps() -> Option<u32> {
        None
    }

    fn default_max_fps() -> (r: Option<u32>)
        ensures
            r.deep_view() == Self::spec_default_max_fps(),
    {
        None
    }

    /// The default of `title_clean_regex`.
    pub open spec fn spec_default_title_clean_regex() -> Seq<Seq<char>> {
        Seq::<Seq<char>>::empty()
    }

    fn default_title_clean_regex() -> (r: Vec<String>)
        ensures
            r.deep_view() == Self::spec_default_title_clean_regex(),
    {
        let r: Vec<String> = Vec::new();
        assert(r.deep_view() =~= Seq::<Seq<char>>::empty());
        r
    }

    /// The default of `max_upload_retries`.
    pub open spec fn spec_default_max_upload_retries() -> u32 {
        3u32
    }

    fn default_max_upload_retries() -> (r: u32)
        ensures
            r.deep_view() == Self::spec_default_max_upload_retries(),
    {
        3u32
    }

    /// The default of `disabled_uploaders`.
    pub open spec fn spec_default_disabled_uploaders() -> Seq<Seq<char>> {
        Seq::<Seq<char>>::empty()
    }

    fn default_disabled_uploaders() -> (r: Vec<String>)
        ensures
            r.deep_view() == Self::spec_default_disabled_uploaders(),
    {
        let r: Vec<String> = Vec::new();
        assert(r.deep_view() =~= Seq::<Seq<char>>::empty());
        r
    }

    /// The default of `thumbnail_size`.
    pub open spec fn spec_default_thumbnail_size() -> Seq<char> {
        "320x180"@
    }

    fn default_thumbnail_size() -> (r: String)
        ensures
            r.deep_view() == Self::spec_default_thumbnail_size(),
    {
        owned("320x180")
    }

    /// The default of `thumbnail_grid`.
    pub open spec fn spec_default_thumbnail_grid() -> Seq<char> {
        "3x3"@
    }

    fn default_thumbnail_grid() -> (r: String)
        ensures
            r.deep_view() == Self::spec_default_thumbnail_grid(),
    {
        owned("3x3")
    }

    /// The default of `discord_webhook_url`.
    pub open spec fn spec_default_discord_webhook_url() -> Option<Seq<char>> {
        None
    }

    fn default_discord_webhook_url() -> (r: Option<String>)
        ensures
            r.deep_view() == Self::spec_default_discord_webhook_url(),
    {
        None
    }

    /// The default of `upload_complete_message_template`.
    pub open spec fn spec_default_upload_complete_message_template() -> Option<Seq<char>> {
        None
    }

    fn default_upload_complete_message_template() -> (r: Option<String>)
        ensures
            r.deep_view() == Self::spec_default_upload_complete_message_template(),
    {
        None
    }

    /// The default of `output_directory`.
    pub open spec fn spec_default_output_directory() -> Seq<char> {
        "./recordings"@
    }

    fn default_output_directory() -> (r: String)
        ensures
            r.deep_view() == Self::spec_default_output_directory(),
    {
        owned("./recordings")
    }

    /// The default of `min_free_space`.
    pub open spec fn spec_default_min_free_space() -> u64 {
        20000000000u64
    }

    fn default_min_free_space() -> (r: FileSizeValue)
        ensures
            r.deep_view() == Self::spec_default_min_free_space(),
    {
        FileSizeValue::from_gb(20)
    }

    /// The default of `retention_max_age`.
    pub open spec fn spec_default_retention_max_age() -> Option<u64> {
        None
    }

    fn default_retention_max_age() -> (r: Option<DurationValue>)
        ensures
            r.deep_view() == Self::spec_default_retention_max_age(),
    {
        None
    }

    /// The default of `retention_keep_latest_per_user`.
    pub open spec fn spec_default_retention_keep_latest_per_user() -> Option<u32> {
        None
    }

    fn default_retention_keep_latest_per_user() -> (r: Option<u32>)
        ensures
            r.deep_view() == Self::spec_default_retention_keep_latest_per_user(),
    {
        None
    }

    /// The effective `monitors`: the stored value, or its default.
    pub fn get_monitors(&self) -> (r: Vec<String>)
        ensures
            r.deep_view() == <List<NoValidation, Required> as ConfigType>::spec_get(
                self.monitors.deep_view(),
                Self::spec_default_monitors(),
            ),
    {
        <List<NoValidation, Required> as ConfigType>::get(&self.monitors, &Self::default_monitors())
    }

    /// The effective `min_stream_duration`: the stored value, or its default.
    pub fn get_min_stream_duration(&self) -> (r: Option<DurationValue>)
        ensures
            r.deep_view() == <Duration<NoValidation, Optional> as ConfigType>::spec_get(
                self.min_stream_duration.deep_view(),
                Self::spec_default_min_stream_duration(),
            ),
    {
        <Duration<NoValidation, Optional> as ConfigType>::get(&self.min_stream_duration, &Self::default_min_stream_duration())
    }

    /// The effective `stream_reconnect_delay`: the stored value, or its default.
    pub fn get_stream_reconnect_delay(&self) -> (r: Option<DurationValue>)
        ensures
            r.deep_view() == <Duration<NoValidation, Optional> as ConfigType>::spec_get(
                self.stream_reconnect_delay.deep_view(),
                Self::spec_default_stream_reconnect_delay(),
            ),
    {
        <Duration<NoValidation, Optional> as ConfigType>::get(&self.stream_reconnect_delay, &Self::default_stream_reconnect_delay())
    }

    /// The effective `stream_metadata_refresh_interval`: the stored value, or its default.
    pub fn get_stream_metadata_refresh_interval(&self) -> (r: Option<DurationValue>)
        ensures
            r.deep_view() == <Duration<NoValidation, Optional> as ConfigType>::spec_get(
                self.stream_metadata_refresh_interval.deep_view(),
                Self::spec_default_stream_metadata_refresh_interval(),
            ),
    {
        <Duration<NoValidation, Optional> as ConfigType>::get(&self.stream_metadata_refresh_interval, &Self::default_stream_metadata_refresh_interval())
    }

    /// The effective `monitor_spawn_delay`: the stored value, or its default.
    pub fn get_monitor_spawn_delay(&self) -> (r: DurationValue)
        ensures
            r.deep_view() == <Duration<NoValidation, Required> as ConfigType>::spec_get(
                self.monitor_spawn_delay.deep_view(),
                Self::spec_default_monitor_spawn_delay(),
            ),
    {
        <Duration<NoValidation, Required> as ConfigType>::get(&self.monitor_spawn_delay, &Self::default_monitor_spawn_delay())
    }

    /// The effective `step_delay`: the stored value, or its default.
    pub fn get_step_delay(&self) -> (r: DurationValue)
        ensures
            r.deep_view() == <Duration<NoValidation, Required> as ConfigType>::spec_get(
                self.step_delay.deep_view(),
                Self::spec_default_step_delay(),
            ),
    {
        <Duration<NoValidation, Required> as ConfigType>::get(&self.step_delay, &Self::default_step_delay())
    }

    /// The effective `fetch_interval`: the stored value, or its default.
    pub fn get_fetch_interval(&self) -> (r: DurationValue)
        ensures
            r.deep_view() == <Duration<NoValidation, Required> as ConfigType>::spec_get(
                self.fetch_interval.deep_view(),
                Self::spec_default_fetch_interval(),
            ),
    {
        <Duration<NoValidation, Required> as ConfigType>::get(&self.fetch_interval, &Self::default_fetch_interval())
    }

    /// The effective `video_quality`: the stored value, or its default.
    pub fn get_video_quality(&self) -> (r: u32)
        ensures
            r.deep_view() == <U32<NoValidation, Required> as ConfigType>::spec_get(
                self.video_quality.deep_view(),
                Self::spec_default_video_quality(),
            ),
    {
        <U32<NoValidation, Required> as ConfigType>::get(&self.video_quality, &Self::default_video_quality())
    }

    /// The effective `video_bitrate`: the stored value, or its default.
    pub fn get_video_bitrate(&self) -> (r: Option<String>)
        ensures
            r.deep_view() == <Text<NoValidation, Optional> as ConfigType>::spec_get(
                self.video_bitrate.deep_view(),
                Self::spec_default_video_bitrate(),
            ),
    {
        <Text<NoValidation, Optional> as ConfigType>::get(&self.video_bitrate, &Self::default_video_bitrate())
    }

    /// The effective `max_bitrate`: the stored value, or its default.
    pub fn get_max_bitrate(&self) -> (r: Option<String>)
        ensures
            r.deep_view() == <Text<NoValidation, Optional> as ConfigType>::spec_get(
                self.max_bitrate.deep_view(),
                Self::spec_default_max_bitrate(),
            ),
    {
        <Text<NoValidation, Optional> as ConfigType>::get(&self.max_bitrate, &Self::default_max_bitrate())
    }

    /// The effective `max_fps`: the stored value, or its default.
    pub fn get_max_fps(&self) -> (r: Option<u32>)
        ensures
            r.deep_view() == <U32<PositiveU32, Optional> as ConfigType>::spec_get(
                self.max_fps.deep_view(),
                Self::spec_default_max_fps(),
            ),
    {
        <U32<PositiveU32, Optional> as ConfigType>::get(&self.max_fps, &Self::default_max_fps())
    }

    /// The effective `title_clean_regex`: the stored value, or its default.
    pub fn get_title_clean_regex(&self) -> (r: Vec<String>)
        ensures
            r.deep_view() == <List<NoValidation, Required> as ConfigType>::spec_get(
                self.title_clean_regex.deep_view(),
                Self::spec_default_title_clean_regex(),
            ),
    {
        <List<NoValidation, Required> as ConfigType>::get(&self.title_clean_regex, &Self::default_title_clean_regex())
    }

    /// The effective `max_upload_retries`: the stored value, or its default.
    pub fn get_max_upload_retries(&self) -> (r: u32)
        ensures
            r.deep_view() == <U32<NoValidation, Required> as ConfigType>::spec_get(
                self.max_upload_retries.deep_view(),
                Self::spec_default_max_upload_retries(),
            ),
    {
        <U32<NoValidation, Required> as ConfigType>::get(&self.max_upload_retries, &Self::default_max_upload_retries())
    }

    /// The effective `disabled_uploaders`: the stored value, or its default.
    pub fn get_disabled_uploaders(&self) -> (r: Vec<String>)
        ensures
            r.deep_view() == <List<NoValidation, Required> as ConfigType>::spec_get(
                self.disabled_uploaders.deep_view(),
                Self::spec_default_disabled_uploaders(),
            ),
    {
        <List<NoValidation, Required> as ConfigType>::get(&self.disabled_uploaders, &Self::default_disabled_uploaders())
    }

    /// The effective `thumbnail_size`: the stored value, or its default.
    pub fn get_thumbnail_size(&self) -> (r: String)
        ensures
            r.deep_view() == <Text<ThumbnailSize, Required> as ConfigType>::spec_get(
                self.thumbnail_size.deep_view(),
                Self::spec_default_thumbnail_size(),
            ),
    {
        <Text<ThumbnailSize, Required> as ConfigType>::get(&self.thumbnail_size, &Self::default_thumbnail_size())
    }

    /// The effective `thumbnail_grid`: the stored value, or its default.
    pub fn get_thumbnail_grid(&self) -> (r: String)
        ensures
            r.deep_view() == <Text<ThumbnailGrid, Required> as ConfigType>::spec_get(
                self.thumbnail_grid.deep_view(),
                Self::spec_default_thumbnail_grid(),
            ),
    {
        <Text<ThumbnailGrid, Required> as ConfigType>::get(&self.thumbnail_grid, &Self::default_thumbnail_grid())
    }

    /// The effective `discord_webhook_url`: the stored value, or its default.
    pub fn get_discord_webhook_url(&self) -> (r: Option<String>)
        ensures
            r.deep_view() == <Text<NoValidation, Optional> as ConfigType>::spec_get(
                self.discord_webhook_url.deep_view(),
                Self::spec_default_discord_webhook_url(),
            ),
    {
        <Text<NoValidation, Optional> as ConfigType>::get(&self.discord_webhook_url, &Self::default_discord_webhook_url())
    }

    /// The effective `upload_complete_message_template`: the stored value, or its default.
    pub fn get_upload_complete_message_template(&self) -> (r: Option<String>)
        ensures
            r.deep_view() == <Text<NoValidation, Optional> as ConfigType>::spec_get(
                self.upload_complete_message_template.deep_view(),
                Self::spec_default_upload_complete_message_template(),
            ),
    {
        <Text<NoValidation, Optional> as ConfigType>::get(&self.upload_complete_message_template, &Self::default_upload_complete_message_template())
    }

    /// The effective `output_directory`: the stored value, or its default.
    pub fn get_output_directory(&self) -> (r: String)
        ensures
            r.deep_view() == <Text<NoValidation, Required> as ConfigType>::spec_get(
                self.output_directory.deep_view(),
                Self::spec_default_output_directory(),
            ),
    {
        <Text<NoValidation, Required> as ConfigType>::get(&self.output_directory, &Self::default_output_directory())
    }

    /// The effective `min_free_space`: the stored value, or its default.
    pub fn get_min_free_space(&self) -> (r: FileSizeValue)
        ensures
            r.deep_view() == <FileSize<NoValidation, Required> as ConfigType>::spec_get(
                self.min_free_space.deep_view(),
                Self::spec_default_min_free_space(),
            ),
    {
        <FileSize<NoValidation, Required> as ConfigType>::get(&self.min_free_space, &Self::default_min_free_space())
    }

    /// The effective `retention_max_age`: the stored value, or its default.
    pub fn get_retention_max_age(&self) -> (r: Option<DurationValue>)
        ensures
            r.deep_view() == <Duration<NoValidation, Optional> as ConfigType>::spec_get(
                self.retention_max_age.deep_view(),
                Self::spec_default_retention_max_age(),
            ),
    {
        <Duration<NoValidation, Optional> as ConfigType>::get(&self.retention_max_age, &Self::default_retention_max_age())
    }

    /// The effective `retention_keep_latest_per_user`: the stored value, or its default.
    pub fn get_retention_keep_latest_per_user(&self) -> (r: Option<u32>)
        ensures
            r.deep_view() == <U32<PositiveU32, Optional> as ConfigType>::spec_get(
                self.retention_keep_latest_per_user.deep_view(),
                Self::spec_default_retention_keep_latest_per_user(),
            ),
    {
        <U32<PositiveU32, Optional> as ConfigType>::get(&self.retention_keep_latest_per_user, &Self::default_retention_keep_latest_per_user())
    }

    /// How the setting `k` is displayed.
    pub open spec fn spec_value_text(self, k: ConfigKey) -> Seq<char> {
        match k {
            ConfigKey::monitors => <List<NoValidation, Required> as ConfigType>::spec_format(
                self.monitors.deep_view(),
                Self::spec_default_monitors(),
            ),
            ConfigKey::min_stream_duration => <Duration<NoValidation, Optional> as ConfigType>::spec_format(
                self.min_stream_duration.deep_view(),
                Self::spec_default_min_stream_duration(),
            ),
            ConfigKey::stream_reconnect_delay => <Duration<NoValidation, Optional> as ConfigType>::spec_format(
                self.stream_reconnect_delay.deep_view(),
                Self::spec_default_stream_reconnect_delay(),
            ),
            ConfigKey::stream_metadata_refresh_interval => <Duration<NoValidation, Optional> as ConfigType>::spec_format(
                self.stream_metadata_refresh_interval.deep_view(),
                Self::spec_default_stream_metadata_refresh_interval(),
            ),
            ConfigKey::monitor_spawn_delay => <Duration<NoValidation, Required> as ConfigType>::spec_format(
                self.monitor_spawn_delay.deep_view(),
                Self::spec_default_monitor_spawn_delay(),
            ),
            ConfigKey::step_delay => <Duration<NoValidation, Required> as ConfigType>::spec_format(
                self.step_delay.deep_view(),
                Self::spec_default_step_delay(),
            ),
            ConfigKey::fetch_interval => <Duration<NoValidation, Required> as ConfigType>::spec_format(
                self.fetch_interval.deep_view(),
                Self::spec_default_fetch_interval(),
            ),
            ConfigKey::video_quality => <U32<NoValidation, Required> as ConfigType>::spec_format(
                self.video_quality.deep_view(),
                Self::spec_default_video_quality(),
            ),
            ConfigKey::video_bitrate => <Text<NoValidation, Optional> as ConfigType>::spec_format(
                self.video_bitrate.deep_view(),
                Self::spec_default_video_bitrate(),
            ),
            ConfigKey::max_bitrate => <Text<NoValidation, Optional> as ConfigType>::spec_format(
                self.max_bitrate.deep_view(),
                Self::spec_default_max_bitrate(),
            ),
            ConfigKey::max_fps => <U32<PositiveU32, Optional> as ConfigType>::spec_format(
                self.max_fps.deep_view(),
                Self::spec_default_max_fps(),
            ),
            ConfigKey::title_clean_regex => <List<NoValidation, Required> as ConfigType>::spec_format(
                self.title_clean_regex.deep_view(),
                Self::spec_default_title_clean_regex(),
            ),
            ConfigKey::max_upload_retries => <U32<NoValidation, Required> as ConfigType>::spec_format(
                self.max_upload_retries.deep_view(),
                Self::spec_default_max_upload_retries(),
            ),
            ConfigKey::disabled_uploaders => <List<NoValidation, Required> as ConfigType>::spec_format(
                self.disabled_uploaders.deep_view(),
                Self::spec_default_disabled_uploaders(),
            ),
            ConfigKey::thumbnail_size => <Text<ThumbnailSize, Required> as ConfigType>::spec_format(
                self.thumbnail_size.deep_view(),
                Self::spec_default_thumbnail_size(),
            ),
            ConfigKey::thumbnail_grid => <Text<ThumbnailGrid, Required> as ConfigType>::spec_format(
                self.thumbnail_grid.deep_view(),
                Self::spec_default_thumbnail_grid(),
            ),
            ConfigKey::discord_webhook_url => <Text<NoValidation, Optional> as ConfigType>::spec_format(
                self.discord_webhook_url.deep_view(),
                Self::spec_default_discord_webhook_url(),
            ),
            ConfigKey::upload_complete_message_template => <Text<NoValidation, Optional> as ConfigType>::spec_format(
                self.upload_complete_message_template.deep_view(),
                Self::spec_default_upload_complete_message_template(),
            ),
            ConfigKey::output_directory => <Text<NoValidation, Required> as ConfigType>::spec_format(
                self.output_directory.deep_view(),
                Self::spec_default_output_directory(),
            ),
            ConfigKey::min_free_space => <FileSize<NoValidation, Required> as ConfigType>::spec_format(
                self.min_free_space.deep_view(),
                Self::spec_default_min_free_space(),
            ),
            ConfigKey::retention_max_age => <Duration<NoValidation, Optional> as ConfigType>::spec_format(
                self.retention_max_age.deep_view(),
                Self::spec_default_retention_max_age(),
            ),
            ConfigKey::retention_keep_latest_per_user => <U32<PositiveU32, Optional> as ConfigType>::spec_format(
                self.retention_keep_latest_per_user.deep_view(),
                Self::spec_default_retention_keep_latest_per_user(),
            ),
        }
    }

    /// How the default of the setting `k` is displayed.
    pub open spec fn spec_default_text(k: ConfigKey) -> Seq<char> {
        match k {
            ConfigKey::monitors => <List<NoValidation, Required> as ConfigType>::spec_format(
                <List<NoValidation, Required> as ConfigType>::spec_stored_from_default(Self::spec_default_monitors()),
                Self::spec_default_monitors(),
            ),
            ConfigKey::min_stream_duration => <Duration<NoValidation, Optional> as ConfigType>::spec_format(
                <Duration<NoValidation, Optional> as ConfigType>::spec_stored_from_default(Self::spec_default_min_stream_duration()),
                Self::spec_default_min_stream_duration(),
            ),
            ConfigKey::stream_reconnect_delay => <Duration<NoValidation, Optional> as ConfigType>::spec_format(
                <Duration<NoValidation, Optional> as ConfigType>::spec_stored_from_default(Self::spec_default_stream_reconnect_delay()),
                Self::spec_default_stream_reconnect_delay(),
            ),
            ConfigKey::stream_metadata_refresh_interval => <Duration<NoValidation, Optional> as ConfigType>::spec_format(
                <Duration<NoValidation, Optional> as ConfigType>::spec_stored_from_default(Self::spec_default_stream_metadata_refresh_interval()),
                Self::spec_default_stream_metadata_refresh_interval(),
            ),
            ConfigKey::monitor_spawn_delay => <Duration<NoValidation, Required> as ConfigType>::spec_format(
                <Duration<NoValidation, Required> as ConfigType>::spec_stored_from_default(Self::spec_default_monitor_spawn_delay()),
                Self::spec_default_monitor_spawn_delay(),
            ),
            ConfigKey::step_delay => <Duration<NoValidation, Required> as ConfigType>::spec_format(
                <Duration<NoValidation, Required> as ConfigType>::spec_stored_from_default(Self::spec_default_step_delay()),
                Self::spec_default_step_delay(),
            ),
            ConfigKey::fetch_interval => <Duration<NoValidation, Required> as ConfigType>::spec_format(
                <Duration<NoValidation, Required> as ConfigType>::spec_stored_from_default(Self::spec_default_fetch_interval()),
                Self::spec_default_fetch_interval(),
            ),
            ConfigKey::video_quality => <U32<NoValidation, Required> as ConfigType>::spec_format(
                <U32<NoValidation, Required> as ConfigType>::spec_stored_from_default(Self::spec_default_video_quality()),
                Self::spec_default_video_quality(),
            ),
            ConfigKey::video_bitrate => <Text<NoValidation, Optional> as ConfigType>::spec_format(
                <Text<NoValidation, Optional> as ConfigType>::spec_stored_from_default(Self::spec_default_video_bitrate()),
                Self::spec_default_video_bitrate(),
            ),
            ConfigKey::max_bitrate => <Text<NoValidation, Optional> as ConfigType>::spec_format(
                <Text<NoValidation, Optional> as ConfigType>::spec_stored_from_default(Self::spec_default_max_bitrate()),
                Self::spec_default_max_bitrate(),
            ),
            ConfigKey::max_fps => <U32<PositiveU32, Optional> as ConfigType>::spec_format(
                <U32<PositiveU32, Optional> as ConfigType>::spec_stored_from_default(Self::spec_default_max_fps()),
                Self::spec_default_max_fps(),
            ),
            ConfigKey::title_clean_regex => <List<NoValidation, Required> as ConfigType>::spec_format(
                <List<NoValidation, Required> as ConfigType>::spec_stored_from_default(Self::spec_default_title_clean_regex()),
                Self::spec_default_title_clean_regex(),
            ),
            ConfigKey::max_upload_retries => <U32<NoValidation, Required> as ConfigType>::spec_format(
                <U32<NoValidation, Required> as ConfigType>::spec_stored_from_default(Self::spec_default_max_upload_retries()),
                Self::spec_default_max_upload_retries(),
            ),
            ConfigKey::disabled_uploaders => <List<NoValidation, Required> as ConfigType>::spec_format(
                <List<NoValidation, Required> as ConfigType>::spec_stored_from_default(Self::spec_default_disabled_uploaders()),
                Self::spec_default_disabled_uploaders(),
            ),
            ConfigKey::thumbnail_size => <Text<ThumbnailSize, Required> as ConfigType>::spec_format(
                <Text<ThumbnailSize, Required> as ConfigType>::spec_stored_from_default(Self::spec_default_thumbnail_size()),
                Self::spec_default_thumbnail_size(),
            ),
            ConfigKey::thumbnail_grid => <Text<ThumbnailGrid, Required> as ConfigType>::spec_format(
                <Text<ThumbnailGrid, Required> as ConfigType>::spec_stored_from_default(Self::spec_default_thumbnail_grid()),
                Self::spec_default_thumbnail_grid(),
            ),
            ConfigKey::discord_webhook_url => <Text<NoValidation, Optional> as ConfigType>::spec_format(
                <Text<NoValidation, Optional> as ConfigType>::spec_stored_from_default(Self::spec_default_discord_webhook_url()),
                Self::spec_default_discord_webhook_url(),
            ),
            ConfigKey::upload_complete_message_template => <Text<NoValidation, Optional> as ConfigType>::spec_format(
                <Text<NoValidation, Optional> as ConfigType>::spec_stored_from_default(Self::spec_default_upload_complete_message_template()),
                Self::spec_default_upload_complete_message_template(),
            ),
            ConfigKey::output_directory => <Text<NoValidation, Required> as ConfigType>::spec_format(
                <Text<NoValidation, Required> as ConfigType>::spec_stored_from_default(Self::spec_default_output_directory()),
                Self::spec_default_output_directory(),
            ),
            ConfigKey::min_free_space => <FileSize<NoValidation, Required> as ConfigType>::spec_format(
                <FileSize<NoValidation, Required> as ConfigType>::spec_stored_from_default(Self::spec_default_min_free_space()),
                Self::spec_default_min_free_space(),
            ),
            ConfigKey::retention_max_age => <Duration<NoValidation, Optional> as ConfigType>::spec_format(
                <Duration<NoValidation, Optional> as ConfigType>::spec_stored_from_default(Self::spec_default_retention_max_age()),
                Self::spec_default_retention_max_age(),
            ),
            ConfigKey::retention_keep_latest_per_user => <U32<PositiveU32, Optional> as ConfigType>::spec_format(
                <U32<PositiveU32, Optional> as ConfigType>::spec_stored_from_default(Self::spec_default_retention_keep_latest_per_user()),
                Self::spec_default_retention_keep_latest_per_user(),
            ),
        }
    }

    /// The description of the setting `k`.
    pub open spec fn spec_description(k: ConfigKey) -> Seq<char> {
        match k {
            ConfigKey::monitors => "List of platform_id:username to monitor"@,
            ConfigKey::min_stream_duration => "Minimum recorded duration required before post-processing. Accepts values like 5m, 90s, or 1h."@,
            ConfigKey::stream_reconnect_delay => "How long to wait for a stream continuation before post-processing. Accepts values like 5m, 30s, or 1h."@,
            ConfigKey::stream_metadata_refresh_interval => "Refresh extracted stream metadata during active recordings. Accepts values like 30s, 5m, or 1h."@,
            ConfigKey::monitor_spawn_delay => "Delay between spawning each monitor task on startup or config reload. Accepts values like 500ms, 2s, or 5s."@,
            ConfigKey::step_delay => "Delay between each step in a platform. Accepts values like 500ms, 2s, or 1m."@,
            ConfigKey::fetch_interval => "How often monitors are fetched. Accepts values like 30s, 2m, or 1h."@,
            ConfigKey::video_quality => "Quality target for variable bitrate video encoding (lower is better)"@,
            ConfigKey::video_bitrate => "Constant video bitrate for CBR encoding (e.g. 6M, 5000k). When set, uses CBR mode and overrides video_quality."@,
            ConfigKey::max_bitrate => "Maximum video bitrate (e.g. 6M, 2500k). When set, adds -maxrate and -bufsize to ffmpeg"@,
            ConfigKey::max_fps => "Maximum framerate a stream will be recorded at."@,
            ConfigKey::title_clean_regex => "Global regular expressions used to clean stream titles for uploader naming"@,
            ConfigKey::max_upload_retries => "Maximum number of upload retries"@,
            ConfigKey::disabled_uploaders => "List of uploaders to skip uploading to"@,
            ConfigKey::thumbnail_size => "Size of each thumbnail in the grid, in WIDTHxHEIGHT format"@,
            ConfigKey::thumbnail_grid => "Grid layout for thumbnails, in COLSxROWS format"@,
            ConfigKey::discord_webhook_url => "Discord webhook URL for notifications"@,
            ConfigKey::upload_complete_message_template => "Template for upload completion messages"@,
            ConfigKey::output_directory => "Directory to save recordings"@,
            ConfigKey::min_free_space => "Minimum free disk space before cleanup (e.g. 20GB, 500MB)"@,
            ConfigKey::retention_max_age => "Delete recordings older than this age. Accepts values like 7d, 48h, or 14d."@,
            ConfigKey::retention_keep_latest_per_user => "Keep only this many of the newest recordings per user"@,
        }
    }

    /// What validating the setting `k` gives: `None` when it passes, else the error.
    pub open spec fn spec_field_check(self, k: ConfigKey) -> Option<ConfigErrorView> {
        match k {
            ConfigKey::monitors => field_check::<List<NoValidation, Required>>("monitors"@, self.monitors.deep_view()),
            ConfigKey::min_stream_duration => field_check::<Duration<NoValidation, Optional>>("min_stream_duration"@, self.min_stream_duration.deep_view()),
            ConfigKey::stream_reconnect_delay => field_check::<Duration<NoValidation, Optional>>("stream_reconnect_delay"@, self.stream_reconnect_delay.deep_view()),
            ConfigKey::stream_metadata_refresh_interval => field_check::<Duration<NoValidation, Optional>>("stream_metadata_refresh_interval"@, self.stream_metadata_refresh_interval.deep_view()),
            ConfigKey::monitor_spawn_delay => field_check::<Duration<NoValidation, Required>>("monitor_spawn_delay"@, self.monitor_spawn_delay.deep_view()),
            ConfigKey::step_delay => field_check::<Duration<NoValidation, Required>>("step_delay"@, self.step_delay.deep_view()),
            ConfigKey::fetch_interval => field_check::<Duration<NoValidation, Required>>("fetch_interval"@, self.fetch_interval.deep_view()),
            ConfigKey::video_quality => field_check::<U32<NoValidation, Required>>("video_quality"@, self.video_quality.deep_view()),
            ConfigKey::video_bitrate => field_check::<Text<NoValidation, Optional>>("video_bitrate"@, self.video_bitrate.deep_view()),
            ConfigKey::max_bitrate => field_check::<Text<NoValidation, Optional>>("max_bitrate"@, self.max_bitrate.deep_view()),
            ConfigKey::max_fps => field_check::<U32<PositiveU32, Optional>>("max_fps"@, self.max_fps.deep_view()),
            ConfigKey::title_clean_regex => field_check::<List<NoValidation, Required>>("title_clean_regex"@, self.title_clean_regex.deep_view()),
            ConfigKey::max_upload_retries => field_check::<U32<NoValidation, Required>>("max_upload_retries"@, self.max_upload_retries.deep_view()),
            ConfigKey::disabled_uploaders => field_check::<List<NoValidation, Required>>("disabled_uploaders"@, self.disabled_uploaders.deep_view()),
            ConfigKey::thumbnail_size => field_check::<Text<ThumbnailSize, Required>>("thumbnail_size"@, self.thumbnail_size.deep_view()),
            ConfigKey::thumbnail_grid => field_check::<Text<ThumbnailGrid, Required>>("thumbnail_grid"@, self.thumbnail_grid.deep_view()),
            ConfigKey::discord_webhook_url => field_check::<Text<NoValidation, Optional>>("discord_webhook_url"@, self.discord_webhook_url.deep_view()),
            ConfigKey::upload_complete_message_template => field_check::<Text<NoValidation, Optional>>("upload_complete_message_template"@, self.upload_complete_message_template.deep_view()),
            ConfigKey::output_directory => field_check::<Text<NoValidation, Required>>("output_directory"@, self.output_directory.deep_view()),
            ConfigKey::min_free_space => field_check::<FileSize<NoValidation, Required>>("min_free_space"@, self.min_free_space.deep_view()),
            ConfigKey::retention_max_age => field_check::<Duration<NoValidation, Optional>>("retention_max_age"@, self.retention_max_age.deep_view()),
            ConfigKey::retention_keep_latest_per_user => field_check::<U32<PositiveU32, Optional>>("retention_keep_latest_per_user"@, self.retention_keep_latest_per_user.deep_view()),
        }
    }

    /// The error that setting `k` from `raw` fails with, if it fails.
    pub open spec fn spec_set_error(k: ConfigKey, raw: Seq<char>) -> Option<ConfigErrorView> {
        match k {
            ConfigKey::monitors => match apply_outcome::<List<NoValidation, Required>>("monitors"@, raw, Self::spec_default_monitors()) {
                Err(e) => Some(e),
                Ok(_) => None,
            },
            ConfigKey::min_stream_duration => match apply_outcome::<Duration<NoValidation, Optional>>("min_stream_duration"@, raw, Self::spec_default_min_stream_duration()) {
                Err(e) => Some(e),
                Ok(_) => None,
            },
            ConfigKey::stream_reconnect_delay => match apply_outcome::<Duration<NoValidation, Optional>>("stream_reconnect_delay"@, raw, Self::spec_default_stream_reconnect_delay()) {
                Err(e) => Some(e),
                Ok(_) => None,
            },
            ConfigKey::stream_metadata_refresh_interval => match apply_outcome::<Duration<NoValidation, Optional>>("stream_metadata_refresh_interval"@, raw, Self::spec_default_stream_metadata_refresh_interval()) {
                Err(e) => Some(e),
                Ok(_) => None,
            },
            ConfigKey::monitor_spawn_delay => match apply_outcome::<Duration<NoValidation, Required>>("monitor_spawn_delay"@, raw, Self::spec_default_monitor_spawn_delay()) {
                Err(e) => Some(e),
                Ok(_) => None,
            },
            ConfigKey::step_delay => match apply_outcome::<Duration<NoValidation, Required>>("step_delay"@, raw, Self::spec_default_step_delay()) {
                Err(e) => Some(e),
                Ok(_) => None,
            },
            ConfigKey::fetch_interval => match apply_outcome::<Duration<NoValidation, Required>>("fetch_interval"@, raw, Self::spec_default_fetch_interval()) {
                Err(e) => Some(e),
                Ok(_) => None,
            },
            ConfigKey::video_quality => match apply_outcome::<U32<NoValidation, Required>>("video_quality"@, raw, Self::spec_default_video_quality()) {
                Err(e) => Some(e),
                Ok(_) => None,
            },
            ConfigKey::video_bitrate => match apply_outcome::<Text<NoValidation, Optional>>("video_bitrate"@, raw, Self::spec_default_video_bitrate()) {
                Err(e) => Some(e),
                Ok(_) => None,
            },
            ConfigKey::max_bitrate => match apply_outcome::<Text<NoValidation, Optional>>("max_bitrate"@, raw, Self::spec_default_max_bitrate()) {
                Err(e) => Some(e),
                Ok(_) => None,
            },
            ConfigKey::max_fps => match apply_outcome::<U32<PositiveU32, Optional>>("max_fps"@, raw, Self::spec_default_max_fps()) {
                Err(e) => Some(e),
                Ok(_) => None,
            },
            ConfigKey::title_clean_regex => match apply_outcome::<List<NoValidation, Required>>("title_clean_regex"@, raw, Self::spec_default_title_clean_regex()) {
                Err(e) => Some(e),
                Ok(_) => None,
            },
            ConfigKey::max_upload_retries => match apply_outcome::<U32<NoValidation, Required>>("max_upload_retries"@, raw, Self::spec_default_max_upload_retries()) {
                Err(e) => Some(e),
                Ok(_) => None,
            },
            ConfigKey::disabled_uploaders => match apply_outcome::<List<NoValidation, Required>>("disabled_uploaders"@, raw, Self::spec_default_disabled_uploaders()) {
                Err(e) => Some(e),
                Ok(_) => None,
            },
            ConfigKey::thumbnail_size => match apply_outcome::<Text<ThumbnailSize, Required>>("thumbnail_size"@, raw, Self::spec_default_thumbnail_size()) {
                Err(e) => Some(e),
                Ok(_) => None,
            },
            ConfigKey::thumbnail_grid => match apply_outcome::<Text<ThumbnailGrid, Required>>("thumbnail_grid"@, raw, Self::spec_default_thumbnail_grid()) {
                Err(e) => Some(e),
                Ok(_) => None,
            },
            ConfigKey::discord_webhook_url => match apply_outcome::<Text<NoValidation, Optional>>("discord_webhook_url"@, raw, Self::spec_default_discord_webhook_url()) {
                Err(e) => Some(e),
                Ok(_) => None,
            },
            ConfigKey::upload_complete_message_template => match apply_outcome::<Text<NoValidation, Optional>>("upload_complete_message_template"@, raw, Self::spec_default_upload_complete_message_template()) {
                Err(e) => Some(e),
                Ok(_) => None,
            },
            ConfigKey::output_directory => match apply_outcome::<Text<NoValidation, Required>>("output_directory"@, raw, Self::spec_default_output_directory()) {
                Err(e) => Some(e),
                Ok(_) => None,
            },
            ConfigKey::min_free_space => match apply_outcome::<FileSize<NoValidation, Required>>("min_free_space"@, raw, Self::spec_default_min_free_space()) {
                Err(e) => Some(e),
                Ok(_) => None,
            },
            ConfigKey::retention_max_age => match apply_outcome::<Duration<NoValidation, Optional>>("retention_max_age"@, raw, Self::spec_default_retention_max_age()) {
                Err(e) => Some(e),
                Ok(_) => None,
            },
            ConfigKey::retention_keep_latest_per_user => match apply_outcome::<U32<PositiveU32, Optional>>("retention_keep_latest_per_user"@, raw, Self::spec_default_retention_keep_latest_per_user()) {
                Err(e) => Some(e),
                Ok(_) => None,
            },
        }
    }

    /// Whether `new` is `self` with the setting `k` successfully set from `raw`.
    pub open spec fn spec_set_ok(self, k: ConfigKey, raw: Seq<char>, new: Config) -> bool {
        match k {
            ConfigKey::monitors => {
                &&& apply_outcome::<List<NoValidation, Required>>("monitors"@, raw, Self::spec_default_monitors()) matches Ok(p)
                    && new.monitors.deep_view() == p
                &&& new == (Config { monitors: new.monitors, ..self })
            },
            ConfigKey::min_stream_duration => {
                &&& apply_outcome::<Duration<NoValidation, Optional>>("min_stream_duration"@, raw, Self::spec_default_min_stream_duration()) matches Ok(p)
                    && new.min_stream_duration.deep_view() == p
                &&& new == (Config { min_stream_duration: new.min_stream_duration, ..self })
            },
            ConfigKey::stream_reconnect_delay => {
                &&& apply_outcome::<Duration<NoValidation, Optional>>("stream_reconnect_delay"@, raw, Self::spec_default_stream_reconnect_delay()) matches Ok(p)
                    && new.stream_reconnect_delay.deep_view() == p
                &&& new == (Config { stream_reconnect_delay: new.stream_reconnect_delay, ..self })
            },
            ConfigKey::stream_metadata_refresh_interval => {
                &&& apply_outcome::<Duration<NoValidation, Optional>>("stream_metadata_refresh_interval"@, raw, Self::spec_default_stream_metadata_refresh_interval()) matches Ok(p)
                    && new.stream_metadata_refresh_interval.deep_view() == p
                &&& new == (Config { stream_metadata_refresh_interval: new.stream_metadata_refresh_interval, ..self })
            },
            ConfigKey::monitor_spawn_delay => {
                &&& apply_outcome::<Duration<NoValidation, Required>>("monitor_spawn_delay"@, raw, Self::spec_default_monitor_spawn_delay()) matches Ok(p)
                    && new.monitor_spawn_delay.deep_view() == p
                &&& new == (Config { monitor_spawn_delay: new.monitor_spawn_delay, ..self })
            },
            ConfigKey::step_delay => {
                &&& apply_outcome::<Duration<NoValidation, Required>>("step_delay"@, raw, Self::spec_default_step_delay()) matches Ok(p)
                    && new.step_delay.deep_view() == p
                &&& new == (Config { step_delay: new.step_delay, ..self })
            },
            ConfigKey::fetch_interval => {
                &&& apply_outcome::<Duration<NoValidation, Required>>("fetch_interval"@, raw, Self::spec_default_fetch_interval()) matches Ok(p)
                    && new.fetch_interval.deep_view() == p
                &&& new == (Config { fetch_interval: new.fetch_interval, ..self })
            },
            ConfigKey::video_quality => {
                &&& apply_outcome::<U32<NoValidation, Required>>("video_quality"@, raw, Self::spec_default_video_quality()) matches Ok(p)
                    && new.video_quality.deep_view() == p
                &&& new == (Config { video_quality: new.video_quality, ..self })
            },
            ConfigKey::video_bitrate => {
                &&& apply_outcome::<Text<NoValidation, Optional>>("video_bitrate"@, raw, Self::spec_default_video_bitrate()) matches Ok(p)
                    && new.video_bitrate.deep_view() == p
                &&& new == (Config { video_bitrate: new.video_bitrate, ..self })
            },
            ConfigKey::max_bitrate => {
                &&& apply_outcome::<Text<NoValidation, Optional>>("max_bitrate"@, raw, Self::spec_default_max_bitrate()) matches Ok(p)
                    && new.max_bitrate.deep_view() == p
                &&& new == (Config { max_bitrate: new.max_bitrate, ..self })
            },
            ConfigKey::max_fps => {
                &&& apply_outcome::<U32<PositiveU32, Optional>>("max_fps"@, raw, Self::spec_default_max_fps()) matches Ok(p)
                    && new.max_fps.deep_view() == p
                &&& new == (Config { max_fps: new.max_fps, ..self })
            },
            ConfigKey::title_clean_regex => {
                &&& apply_outcome::<List<NoValidation, Required>>("title_clean_regex"@, raw, Self::spec_default_title_clean_regex()) matches Ok(p)
                    && new.title_clean_regex.deep_view() == p
                &&& new == (Config { title_clean_regex: new.title_clean_regex, ..self })
            },
            ConfigKey::max_upload_retries => {
                &&& apply_outcome::<U32<NoValidation, Required>>("max_upload_retries"@, raw, Self::spec_default_max_upload_retries()) matches Ok(p)
                    && new.max_upload_retries.deep_view() == p
                &&& new == (Config { max_upload_retries: new.max_upload_retries, ..self })
            },
            ConfigKey::disabled_uploaders => {
                &&& apply_outcome::<List<NoValidation, Required>>("disabled_uploaders"@, raw, Self::spec_default_disabled_uploaders()) matches Ok(p)
                    && new.disabled_uploaders.deep_view() == p
                &&& new == (Config { disabled_uploaders: new.disabled_uploaders, ..self })
            },
            ConfigKey::thumbnail_size => {
                &&& apply_outcome::<Text<ThumbnailSize, Required>>("thumbnail_size"@, raw, Self::spec_default_thumbnail_size()) matches Ok(p)
                    && new.thumbnail_size.deep_view() == p
                &&& new == (Config { thumbnail_size: new.thumbnail_size, ..self })
            },
            ConfigKey::thumbnail_grid => {
                &&& apply_outcome::<Text<ThumbnailGrid, Required>>("thumbnail_grid"@, raw, Self::spec_default_thumbnail_grid()) matches Ok(p)
                    && new.thumbnail_grid.deep_view() == p
                &&& new == (Config { thumbnail_grid: new.thumbnail_grid, ..self })
            },
            ConfigKey::discord_webhook_url => {
                &&& apply_outcome::<Text<NoValidation, Optional>>("discord_webhook_url"@, raw, Self::spec_default_discord_webhook_url()) matches Ok(p)
                    && new.discord_webhook_url.deep_view() == p
                &&& new == (Config { discord_webhook_url: new.discord_webhook_url, ..self })
            },
            ConfigKey::upload_complete_message_template => {
                &&& apply_outcome::<Text<NoValidation, Optional>>("upload_complete_message_template"@, raw, Self::spec_default_upload_complete_message_template()) matches Ok(p)
                    && new.upload_complete_message_template.deep_view() == p
                &&& new == (Config { upload_complete_message_template: new.upload_complete_message_template, ..self })
            },
            ConfigKey::output_directory => {
                &&& apply_outcome::<Text<NoValidation, Required>>("output_directory"@, raw, Self::spec_default_output_directory()) matches Ok(p)
                    && new.output_directory.deep_view() == p
                &&& new == (Config { output_directory: new.output_directory, ..self })
            },
            ConfigKey::min_free_space => {
                &&& apply_outcome::<FileSize<NoValidation, Required>>("min_free_space"@, raw, Self::spec_default_min_free_space()) matches Ok(p)
                    && new.min_free_space.deep_view() == p
                &&& new == (Config { min_free_space: new.min_free_space, ..self })
            },
            ConfigKey::retention_max_age => {
                &&& apply_outcome::<Duration<NoValidation, Optional>>("retention_max_age"@, raw, Self::spec_default_retention_max_age()) matches Ok(p)
                    && new.retention_max_age.deep_view() == p
                &&& new == (Config { retention_max_age: new.retention_max_age, ..self })
            },
            ConfigKey::retention_keep_latest_per_user => {
                &&& apply_outcome::<U32<PositiveU32, Optional>>("retention_keep_latest_per_user"@, raw, Self::spec_default_retention_keep_latest_per_user()) matches Ok(p)
                    && new.retention_keep_latest_per_user.deep_view() == p
                &&& new == (Config { retention_keep_latest_per_user: new.retention_keep_latest_per_user, ..self })
            },
        }
    }

    /// Whether `new` is `self` with the setting `k` reset.
    pub open spec fn spec_reset(self, k: ConfigKey, new: Config) -> bool {
        match k {
            ConfigKey::monitors => {
                &&& new.monitors.deep_view() == <List<NoValidation, Required> as ConfigType>::spec_reset_value(
                    Self::spec_default_monitors(),
                )
                &&& new == (Config { monitors: new.monitors, ..self })
            },
            ConfigKey::min_stream_duration => {
                &&& new.min_stream_duration.deep_view() == <Duration<NoValidation, Optional> as ConfigType>::spec_reset_value(
                    Self::spec_default_min_stream_duration(),
                )
                &&& new == (Config { min_stream_duration: new.min_stream_duration, ..self })
            },
            ConfigKey::stream_reconnect_delay => {
                &&& new.stream_reconnect_delay.deep_view() == <Duration<NoValidation, Optional> as ConfigType>::spec_reset_value(
                    Self::spec_default_stream_reconnect_delay(),
                )
                &&& new == (Config { stream_reconnect_delay: new.stream_reconnect_delay, ..self })
            },
            ConfigKey::stream_metadata_refresh_interval => {
                &&& new.stream_metadata_refresh_interval.deep_view() == <Duration<NoValidation, Optional> as ConfigType>::spec_reset_value(
                    Self::spec_default_stream_metadata_refresh_interval(),
                )
                &&& new == (Config { stream_metadata_refresh_interval: new.stream_metadata_refresh_interval, ..self })
            },
            ConfigKey::monitor_spawn_delay => {
                &&& new.monitor_spawn_delay.deep_view() == <Duration<NoValidation, Required> as ConfigType>::spec_reset_value(
                    Self::spec_default_monitor_spawn_delay(),
                )
                &&& new == (Config { monitor_spawn_delay: new.monitor_spawn_delay, ..self })
            },
            ConfigKey::step_delay => {
                &&& new.step_delay.deep_view() == <Duration<NoValidation, Required> as ConfigType>::spec_reset_value(
                    Self::spec_default_step_delay(),
                )
                &&& new == (Config { step_delay: new.step_delay, ..self })
            },
            ConfigKey::fetch_interval => {
                &&& new.fetch_interval.deep_view() == <Duration<NoValidation, Required> as ConfigType>::spec_reset_value(
                    Self::spec_default_fetch_interval(),
                )
                &&& new == (Config { fetch_interval: new.fetch_interval, ..self })
            },
            ConfigKey::video_quality => {
                &&& new.video_quality.deep_view() == <U32<NoValidation, Required> as ConfigType>::spec_reset_value(
                    Self::spec_default_video_quality(),
                )
                &&& new == (Config { video_quality: new.video_quality, ..self })
            },
            ConfigKey::video_bitrate => {
                &&& new.video_bitrate.deep_view() == <Text<NoValidation, Optional> as ConfigType>::spec_reset_value(
                    Self::spec_default_video_bitrate(),
                )
                &&& new == (Config { video_bitrate: new.video_bitrate, ..self })
            },
            ConfigKey::max_bitrate => {
                &&& new.max_bitrate.deep_view() == <Text<NoValidation, Optional> as ConfigType>::spec_reset_value(
                    Self::spec_default_max_bitrate(),
                )
                &&& new == (Config { max_bitrate: new.max_bitrate, ..self })
            },
            ConfigKey::max_fps => {
                &&& new.max_fps.deep_view() == <U32<PositiveU32, Optional> as ConfigType>::spec_reset_value(
                    Self::spec_default_max_fps(),
                )
                &&& new == (Config { max_fps: new.max_fps, ..self })
            },
            ConfigKey::title_clean_regex => {
                &&& new.title_clean_regex.deep_view() == <List<NoValidation, Required> as ConfigType>::spec_reset_value(
                    Self::spec_default_title_clean_regex(),
                )
                &&& new == (Config { title_clean_regex: new.title_clean_regex, ..self })
            },
            ConfigKey::max_upload_retries => {
                &&& new.max_upload_retries.deep_view() == <U32<NoValidation, Required> as ConfigType>::spec_reset_value(
                    Self::spec_default_max_upload_retries(),
                )
                &&& new == (Config { max_upload_retries: new.max_upload_retries, ..self })
            },
            ConfigKey::disabled_uploaders => {
                &&& new.disabled_uploaders.deep_view() == <List<NoValidation, Required> as ConfigType>::spec_reset_value(
                    Self::spec_default_disabled_uploaders(),
                )
                &&& new == (Config { disabled_uploaders: new.disabled_uploaders, ..self })
            },
            ConfigKey::thumbnail_size => {
                &&& new.thumbnail_size.deep_view() == <Text<ThumbnailSize, Required> as ConfigType>::spec_reset_value(
                    Self::spec_default_thumbnail_size(),
                )
                &&& new == (Config { thumbnail_size: new.thumbnail_size, ..self })
            },
            ConfigKey::thumbnail_grid => {
                &&& new.thumbnail_grid.deep_view() == <Text<ThumbnailGrid, Required> as ConfigType>::spec_reset_value(
                    Self::spec_default_thumbnail_grid(),
                )
                &&& new == (Config { thumbnail_grid: new.thumbnail_grid, ..self })
            },
            ConfigKey::discord_webhook_url => {
                &&& new.discord_webhook_url.deep_view() == <Text<NoValidation, Optional> as ConfigType>::spec_reset_value(
                    Self::spec_default_discord_webhook_url(),
                )
                &&& new == (Config { discord_webhook_url: new.discord_webhook_url, ..self })
            },
            ConfigKey::upload_complete_message_template => {
                &&& new.upload_complete_message_template.deep_view() == <Text<NoValidation, Optional> as ConfigType>::spec_reset_value(
                    Self::spec_default_upload_complete_message_template(),
                )
                &&& new == (Config { upload_complete_message_template: new.upload_complete_message_template, ..self })
            },
            ConfigKey::output_directory => {
                &&& new.output_directory.deep_view() == <Text<NoValidation, Required> as ConfigType>::spec_reset_value(
                    Self::spec_default_output_directory(),
                )
                &&& new == (Config { output_directory: new.output_directory, ..self })
            },
            ConfigKey::min_free_space => {
                &&& new.min_free_space.deep_view() == <FileSize<NoValidation, Required> as ConfigType>::spec_reset_value(
                    Self::spec_default_min_free_space(),
                )
                &&& new == (Config { min_free_space: new.min_free_space, ..self })
            },
            ConfigKey::retention_max_age => {
                &&& new.retention_max_age.deep_view() == <Duration<NoValidation, Optional> as ConfigType>::spec_reset_value(
                    Self::spec_default_retention_max_age(),
                )
                &&& new == (Config { retention_max_age: new.retention_max_age, ..self })
            },
            ConfigKey::retention_keep_latest_per_user => {
                &&& new.retention_keep_latest_per_user.deep_view() == <U32<PositiveU32, Optional> as ConfigType>::spec_reset_value(
                    Self::spec_default_retention_keep_latest_per_user(),
                )
                &&& new == (Config { retention_keep_latest_per_user: new.retention_keep_latest_per_user, ..self })
            },
        }
    }

    /// The error of the first of `keys` whose setting fails validation, if any.
    pub open spec fn spec_first_failure(self, keys: Seq<ConfigKey>) -> Option<ConfigErrorView>
        decreases keys.len(),
    {
        if keys.len() == 0 {
            None
        } else {
            match self.spec_field_check(keys[0]) {
                Some(e) => Some(e),
                None => self.spec_first_failure(keys.drop_first()),
            }
        }
    }

    /// Whether every setting passes validation.
    pub open spec fn spec_valid(self) -> bool {
        forall|k: ConfigKey| #[trigger] self.spec_field_check(k) is None
    }

    fn check_key(&self, k: ConfigKey) -> (r: Result<(), ConfigError>)
        ensures
            match self.spec_field_check(k) {
                None => r is Ok,
                Some(e) => r matches Err(x) && x@ == e,
            },
    {
        match k {
            ConfigKey::monitors => validate_field::<List<NoValidation, Required>>("monitors", &self.monitors),
            ConfigKey::min_stream_duration => validate_field::<Duration<NoValidation, Optional>>("min_stream_duration", &self.min_stream_duration),
            ConfigKey::stream_reconnect_delay => validate_field::<Duration<NoValidation, Optional>>("stream_reconnect_delay", &self.stream_reconnect_delay),
            ConfigKey::stream_metadata_refresh_interval => validate_field::<Duration<NoValidation, Optional>>("stream_metadata_refresh_interval", &self.stream_metadata_refresh_interval),
            ConfigKey::monitor_spawn_delay => validate_field::<Duration<NoValidation, Required>>("monitor_spawn_delay", &self.monitor_spawn_delay),
            ConfigKey::step_delay => validate_field::<Duration<NoValidation, Required>>("step_delay", &self.step_delay),
            ConfigKey::fetch_interval => validate_field::<Duration<NoValidation, Required>>("fetch_interval", &self.fetch_interval),
            ConfigKey::video_quality => validate_field::<U32<NoValidation, Required>>("video_quality", &self.video_quality),
            ConfigKey::video_bitrate => validate_field::<Text<NoValidation, Optional>>("video_bitrate", &self.video_bitrate),
            ConfigKey::max_bitrate => validate_field::<Text<NoValidation, Optional>>("max_bitrate", &self.max_bitrate),
            ConfigKey::max_fps => validate_field::<U32<PositiveU32, Optional>>("max_fps", &self.max_fps),
            ConfigKey::title_clean_regex => validate_field::<List<NoValidation, Required>>("title_clean_regex", &self.title_clean_regex),
            ConfigKey::max_upload_retries => validate_field::<U32<NoValidation, Required>>("max_upload_retries", &self.max_upload_retries),
            ConfigKey::disabled_uploaders => validate_field::<List<NoValidation, Required>>("disabled_uploaders", &self.disabled_uploaders),
            ConfigKey::thumbnail_size => validate_field::<Text<ThumbnailSize, Required>>("thumbnail_size", &self.thumbnail_size),
            ConfigKey::thumbnail_grid => validate_field::<Text<ThumbnailGrid, Required>>("thumbnail_grid", &self.thumbnail_grid),
            ConfigKey::discord_webhook_url => validate_field::<Text<NoValidation, Optional>>("discord_webhook_url", &self.discord_webhook_url),
            ConfigKey::upload_complete_message_template => validate_field::<Text<NoValidation, Optional>>("upload_complete_message_template", &self.upload_complete_message_template),
            ConfigKey::output_directory => validate_field::<Text<NoValidation, Required>>("output_directory", &self.output_directory),
            ConfigKey::min_free_space => validate_field::<FileSize<NoValidation, Required>>("min_free_space", &self.min_free_space),
            ConfigKey::retention_max_age => validate_field::<Duration<NoValidation, Optional>>("retention_max_age", &self.retention_max_age),
            ConfigKey::retention_keep_latest_per_user => validate_field::<U32<PositiveU32, Optional>>("retention_keep_latest_per_user", &self.retention_keep_latest_per_user),
        }
    }

    pub(crate) fn value_text(&self, k: ConfigKey) -> (r: String)
        ensures
            r@ == self.spec_value_text(k),
    {
        match k {
            ConfigKey::monitors => <List<NoValidation, Required> as ConfigType>::format(&self.monitors, &Self::default_monitors()),
            ConfigKey::min_stream_duration => <Duration<NoValidation, Optional> as ConfigType>::format(&self.min_stream_duration, &Self::default_min_stream_duration()),
            ConfigKey::stream_reconnect_delay => <Duration<NoValidation, Optional> as ConfigType>::format(&self.stream_reconnect_delay, &Self::default_stream_reconnect_delay()),
            ConfigKey::stream_metadata_refresh_interval => <Duration<NoValidation, Optional> as ConfigType>::format(&self.stream_metadata_refresh_interval, &Self::default_stream_metadata_refresh_interval()),
            ConfigKey::monitor_spawn_delay => <Duration<NoValidation, Required> as ConfigType>::format(&self.monitor_spawn_delay, &Self::default_monitor_spawn_delay()),
            ConfigKey::step_delay => <Duration<NoValidation, Required> as ConfigType>::format(&self.step_delay, &Self::default_step_delay()),
            ConfigKey::fetch_interval => <Duration<NoValidation, Required> as ConfigType>::format(&self.fetch_interval, &Self::default_fetch_interval()),
            ConfigKey::video_quality => <U32<NoValidation, Required> as ConfigType>::format(&self.video_quality, &Self::default_video_quality()),
            ConfigKey::video_bitrate => <Text<NoValidation, Optional> as ConfigType>::format(&self.video_bitrate, &Self::default_video_bitrate()),
            ConfigKey::max_bitrate => <Text<NoValidation, Optional> as ConfigType>::format(&self.max_bitrate, &Self::default_max_bitrate()),
            ConfigKey::max_fps => <U32<PositiveU32, Optional> as ConfigType>::format(&self.max_fps, &Self::default_max_fps()),
            ConfigKey::title_clean_regex => <List<NoValidation, Required> as ConfigType>::format(&self.title_clean_regex, &Self::default_title_clean_regex()),
            ConfigKey::max_upload_retries => <U32<NoValidation, Required> as ConfigType>::format(&self.max_upload_retries, &Self::default_max_upload_retries()),
            ConfigKey::disabled_uploaders => <List<NoValidation, Required> as ConfigType>::format(&self.disabled_uploaders, &Self::default_disabled_uploaders()),
            ConfigKey::thumbnail_size => <Text<ThumbnailSize, Required> as ConfigType>::format(&self.thumbnail_size, &Self::default_thumbnail_size()),
            ConfigKey::thumbnail_grid => <Text<ThumbnailGrid, Required> as ConfigType>::format(&self.thumbnail_grid, &Self::default_thumbnail_grid()),
            ConfigKey::discord_webhook_url => <Text<NoValidation, Optional> as ConfigType>::format(&self.discord_webhook_url, &Self::default_discord_webhook_url()),
            ConfigKey::upload_complete_message_template => <Text<NoValidation, Optional> as ConfigType>::format(&self.upload_complete_message_template, &Self::default_upload_complete_message_template()),
            ConfigKey::output_directory => <Text<NoValidation, Required> as ConfigType>::format(&self.output_directory, &Self::default_output_directory()),
            ConfigKey::min_free_space => <FileSize<NoValidation, Required> as ConfigType>::format(&self.min_free_space, &Self::default_min_free_space()),
            ConfigKey::retention_max_age => <Duration<NoValidation, Optional> as ConfigType>::format(&self.retention_max_age, &Self::default_retention_max_age()),
            ConfigKey::retention_keep_latest_per_user => <U32<PositiveU32, Optional> as ConfigType>::format(&self.retention_keep_latest_per_user, &Self::default_retention_keep_latest_per_user()),
        }
    }

    /// Run every setting's validation, in order; the first failure is returned.
    pub fn validate(&self) -> (r: Result<(), ConfigError>)
        ensures
            match self.spec_first_failure(ConfigKey::spec_all()) {
                None => r is Ok,
                Some(e) => r matches Err(x) && x@ == e,
            },
            r is Ok <==> self.spec_valid(),
    {
        let keys = ConfigKey::all();
        let ghost all = ConfigKey::spec_all();
        let mut i: usize = 0;
        proof {
            assert(all.skip(0) =~= all);
        }
        while i < keys.len()
            invariant
                keys@ == all,
                all == ConfigKey::spec_all(),
                i <= keys@.len(),
                self.spec_first_failure(all) == self.spec_first_failure(all.skip(i as int)),
            decreases keys@.len() - i,
        {
            let k = keys[i];
            proof {
                assert(all.skip(i as int)[0] == k);
                assert(all.skip(i as int).drop_first() =~= all.skip(i as int + 1));
            }
            match self.check_key(k) {
                Ok(()) => {},
                Err(e) => {
                    proof {
                        Self::lemma_first_failure_all(*self);
                    }
                    return Err(e);
                },
            }
            i = i + 1;
        }
        proof {
            assert(all.skip(i as int) =~= Seq::<ConfigKey>::empty());
            Self::lemma_first_failure_all(*self);
        }
        Ok(())
    }

    /// The validation of all settings fails exactly when some setting fails.
    pub proof fn lemma_first_failure_all(c: Config)
        ensures
            c.spec_first_failure(ConfigKey::spec_all()) is None <==> c.spec_valid(),
    {
        let all = ConfigKey::spec_all();
        Self::lemma_first_failure_none(c, all);
        if c.spec_first_failure(all) is None {
            assert forall|k: ConfigKey| #[trigger] c.spec_field_check(k) is None by {
                Self::lemma_all_keys_listed(k);
                let j = choose|j: int| 0 <= j < all.len() && all[j] == k;
                assert(c.spec_field_check(all[j]) is None);
            }
        }
    }

    /// Every setting is listed by `ConfigKey::spec_all`.
    pub proof fn lemma_all_keys_listed(k: ConfigKey)
        ensures
            exists|j: int| 0 <= j < ConfigKey::spec_all().len() && ConfigKey::spec_all()[j] == k,
    {
        let all = ConfigKey::spec_all();
        match k {
            ConfigKey::monitors => assert(all[0] == k),
            ConfigKey::min_stream_duration => assert(all[1] == k),
            ConfigKey::stream_reconnect_delay => assert(all[2] == k),
            ConfigKey::stream_metadata_refresh_interval => assert(all[3] == k),
            ConfigKey::monitor_spawn_delay => assert(all[4] == k),
            ConfigKey::step_delay => assert(all[5] == k),
            ConfigKey::fetch_interval => assert(all[6] == k),
            ConfigKey::video_quality => assert(all[7] == k),
            ConfigKey::video_bitrate => assert(all[8] == k),
            ConfigKey::max_bitrate => assert(all[9] == k),
            ConfigKey::max_fps => assert(all[10] == k),
            ConfigKey::title_clean_regex => assert(all[11] == k),
            ConfigKey::max_upload_retries => assert(all[12] == k),
            ConfigKey::disabled_uploaders => assert(all[13] == k),
            ConfigKey::thumbnail_size => assert(all[14] == k),
            ConfigKey::thumbnail_grid => assert(all[15] == k),
            ConfigKey::discord_webhook_url => assert(all[16] == k),
            ConfigKey::upload_complete_message_template => assert(all[17] == k),
            ConfigKey::output_directory => assert(all[18] == k),
            ConfigKey::min_free_space => assert(all[19] == k),
            ConfigKey::retention_max_age => assert(all[20] == k),
            ConfigKey::retention_keep_latest_per_user => assert(all[21] == k),
        }
    }

    /// The first failure among `keys` is `None` exactly when each of them passes.
    pub proof fn lemma_first_failure_none(c: Config, keys: Seq<ConfigKey>)
        ensures
            c.spec_first_failure(keys) is None <==> forall|j: int|
                0 <= j < keys.len() ==> (#[trigger] c.spec_field_check(keys[j])) is None,
        decreases keys.len(),
    {
        if keys.len() > 0 {
            Self::lemma_first_failure_none(c, keys.drop_first());
            if c.spec_first_failure(keys) is None {
                assert forall|j: int| 0 <= j < keys.len() implies (#[trigger] c.spec_field_check(
                    keys[j],
                )) is None by {
                    if j > 0 {
                        assert(keys[j] == keys.drop_first()[j - 1]);
                    }
                }
            } else {
                if forall|j: int| 0 <= j < keys.len() ==> (#[trigger] c.spec_field_check(keys[j])) is None {
                    assert(c.spec_field_check(keys[0]) is None);
                    assert forall|j: int| 0 <= j < keys.drop_first().len() implies (
                    #[trigger] c.spec_field_check(keys.drop_first()[j])) is None by {
                        assert(keys.drop_first()[j] == keys[j + 1]);
                    }
                }
            }
        }
    }

    /// Format a setting's current value; `unknown key` for a name that is no setting.
    pub fn get_value(&self, key: &str) -> (r: String)
        ensures
            r@ == match ConfigKey::spec_from_key(key@) {
                Some(k) => self.spec_value_text(k),
                None => "unknown key"@,
            },
    {
        match ConfigKey::from_key(key) {
            Some(k) => self.value_text(k),
            None => owned("unknown key"),
        }
    }

    /// Parse a string and set a setting; on any error the settings are left as they were.
    pub fn set_value(&mut self, key: &str, value: &str) -> (r: Result<(), ConfigError>)
        ensures
            match ConfigKey::spec_from_key(key@) {
                None => r matches Err(e) && e@ == ConfigErrorView::UnknownKey(key@) && *final(self)
                    == *old(self),
                Some(k) => match Config::spec_set_error(k, value@) {
                    Some(e) => r matches Err(x) && x@ == e && *final(self) == *old(self),
                    None => r is Ok && old(self).spec_set_ok(k, value@, *final(self)),
                },
            },
    {
        let found = ConfigKey::from_key(key);
        let result = match found {
            Some(ConfigKey::monitors) => apply_value::<List<NoValidation, Required>>(
                "monitors",
                &mut self.monitors,
                value,
                &Self::default_monitors(),
            ),
            Some(ConfigKey::min_stream_duration) => apply_value::<Duration<NoValidation, Optional>>(
                "min_stream_duration",
                &mut self.min_stream_duration,
                value,
                &Self::default_min_stream_duration(),
            ),
            Some(ConfigKey::stream_reconnect_delay) => apply_value::<Duration<NoValidation, Optional>>(
                "stream_reconnect_delay",
                &mut self.stream_reconnect_delay,
                value,
                &Self::default_stream_reconnect_delay(),
            ),
            Some(ConfigKey::stream_metadata_refresh_interval) => apply_value::<Duration<NoValidation, Optional>>(
                "stream_metadata_refresh_interval",
                &mut self.stream_metadata_refresh_interval,
                value,
                &Self::default_stream_metadata_refresh_interval(),
            ),
            Some(ConfigKey::monitor_spawn_delay) => apply_value::<Duration<NoValidation, Required>>(
                "monitor_spawn_delay",
                &mut self.monitor_spawn_delay,
                value,
                &Self::default_monitor_spawn_delay(),
            ),
            Some(ConfigKey::step_delay) => apply_value::<Duration<NoValidation, Required>>(
                "step_delay",
                &mut self.step_delay,
                value,
                &Self::default_step_delay(),
            ),
            Some(ConfigKey::fetch_interval) => apply_value::<Duration<NoValidation, Required>>(
                "fetch_interval",
                &mut self.fetch_interval,
                value,
                &Self::default_fetch_interval(),
            ),
            Some(ConfigKey::video_quality) => apply_value::<U32<NoValidation, Required>>(
                "video_quality",
                &mut self.video_quality,
                value,
                &Self::default_video_quality(),
            ),
            Some(ConfigKey::video_bitrate) => apply_value::<Text<NoValidation, Optional>>(
                "video_bitrate",
                &mut self.video_bitrate,
                value,
                &Self::default_video_bitrate(),
            ),
            Some(ConfigKey::max_bitrate) => apply_value::<Text<NoValidation, Optional>>(
                "max_bitrate",
                &mut self.max_bitrate,
                value,
                &Self::default_max_bitrate(),
            ),
            Some(ConfigKey::max_fps) => apply_value::<U32<PositiveU32, Optional>>(
                "max_fps",
                &mut self.max_fps,
                value,
                &Self::default_max_fps(),
            ),
            Some(ConfigKey::title_clean_regex) => apply_value::<List<NoValidation, Required>>(
                "title_clean_regex",
                &mut self.title_clean_regex,
                value,
                &Self::default_title_clean_regex(),
            ),
            Some(ConfigKey::max_upload_retries) => apply_value::<U32<NoValidation, Required>>(
                "max_upload_retries",
                &mut self.max_upload_retries,
                value,
                &Self::default_max_upload_retries(),
            ),
            Some(ConfigKey::disabled_uploaders) => apply_value::<List<NoValidation, Required>>(
                "disabled_uploaders",
                &mut self.disabled_uploaders,
                value,
                &Self::default_disabled_uploaders(),
            ),
            Some(ConfigKey::thumbnail_size) => apply_value::<Text<ThumbnailSize, Required>>(
                "thumbnail_size",
                &mut self.thumbnail_size,
                value,
                &Self::default_thumbnail_size(),
            ),
            Some(ConfigKey::thumbnail_grid) => apply_value::<Text<ThumbnailGrid, Required>>(
                "thumbnail_grid",
                &mut self.thumbnail_grid,
                value,
                &Self::default_thumbnail_grid(),
            ),
            Some(ConfigKey::discord_webhook_url) => apply_value::<Text<NoValidation, Optional>>(
                "discord_webhook_url",
                &mut self.discord_webhook_url,
                value,
                &Self::default_discord_webhook_url(),
            ),
            Some(ConfigKey::upload_complete_message_template) => apply_value::<Text<NoValidation, Optional>>(
                "upload_complete_message_template",
                &mut self.upload_complete_message_template,
                value,
                &Self::default_upload_complete_message_template(),
            ),
            Some(ConfigKey::output_directory) => apply_value::<Text<NoValidation, Required>>(
                "output_directory",
                &mut self.output_directory,
                value,
                &Self::default_output_directory(),
            ),
            Some(ConfigKey::min_free_space) => apply_value::<FileSize<NoValidation, Required>>(
                "min_free_space",
                &mut self.min_free_space,
                value,
                &Self::default_min_free_space(),
            ),
            Some(ConfigKey::retention_max_age) => apply_value::<Duration<NoValidation, Optional>>(
                "retention_max_age",
                &mut self.retention_max_age,
                value,
                &Self::default_retention_max_age(),
            ),
            Some(ConfigKey::retention_keep_latest_per_user) => apply_value::<U32<PositiveU32, Optional>>(
                "retention_keep_latest_per_user",
                &mut self.retention_keep_latest_per_user,
                value,
                &Self::default_retention_keep_latest_per_user(),
            ),
            None => Err(ConfigError::UnknownKey(owned(key))),
        };
        result
    }

    /// Reset a setting to its default, giving the default's text.
    pub fn reset_key(&mut self, key: &str) -> (r: Result<String, ConfigError>)
        ensures
            match ConfigKey::spec_from_key(key@) {
                None => r matches Err(e) && e@ == ConfigErrorView::UnknownKey(key@) && *final(self)
                    == *old(self),
                Some(k) => r matches Ok(s) && s@ == Config::spec_default_text(k) && old(
                    self,
                ).spec_reset(k, *final(self)),
            },
    {
        match ConfigKey::from_key(key) {
            Some(ConfigKey::monitors) => {
                let d = Self::default_monitors();
                self.monitors = <List<NoValidation, Required> as ConfigType>::reset_value(&d);
                Ok(<List<NoValidation, Required> as ConfigType>::format_default(&d))
            },
            Some(ConfigKey::min_stream_duration) => {
                let d = Self::default_min_stream_duration();
                self.min_stream_duration = <Duration<NoValidation, Optional> as ConfigType>::reset_value(&d);
                Ok(<Duration<NoValidation, Optional> as ConfigType>::format_default(&d))
            },
            Some(ConfigKey::stream_reconnect_delay) => {
                let d = Self::default_stream_reconnect_delay();
                self.stream_reconnect_delay = <Duration<NoValidation, Optional> as ConfigType>::reset_value(&d);
                Ok(<Duration<NoValidation, Optional> as ConfigType>::format_default(&d))
            },
            Some(ConfigKey::stream_metadata_refresh_interval) => {
                let d = Self::default_stream_metadata_refresh_interval();
                self.stream_metadata_refresh_interval = <Duration<NoValidation, Optional> as ConfigType>::reset_value(&d);
                Ok(<Duration<NoValidation, Optional> as ConfigType>::format_default(&d))
            },
            Some(ConfigKey::monitor_spawn_delay) => {
                let d = Self::default_monitor_spawn_delay();
                self.monitor_spawn_delay = <Duration<NoValidation, Required> as ConfigType>::reset_value(&d);
                Ok(<Duration<NoValidation, Required> as ConfigType>::format_default(&d))
            },
            Some(ConfigKey::step_delay) => {
                let d = Self::default_step_delay();
                self.step_delay = <Duration<NoValidation, Required> as ConfigType>::reset_value(&d);
                Ok(<Duration<NoValidation, Required> as ConfigType>::format_default(&d))
            },
            Some(ConfigKey::fetch_interval) => {
                let d = Self::default_fetch_interval();
                self.fetch_interval = <Duration<NoValidation, Required> as ConfigType>::reset_value(&d);
                Ok(<Duration<NoValidation, Required> as ConfigType>::format_default(&d))
            },
            Some(ConfigKey::video_quality) => {
                let d = Self::default_video_quality();
                self.video_quality = <U32<NoValidation, Required> as ConfigType>::reset_value(&d);
                Ok(<U32<NoValidation, Required> as ConfigType>::format_default(&d))
            },
            Some(ConfigKey::video_bitrate) => {
                let d = Self::default_video_bitrate();
                self.video_bitrate = <Text<NoValidation, Optional> as ConfigType>::reset_value(&d);
                Ok(<Text<NoValidation, Optional> as ConfigType>::format_default(&d))
            },
            Some(ConfigKey::max_bitrate) => {
                let d = Self::default_max_bitrate();
                self.max_bitrate = <Text<NoValidation, Optional> as ConfigType>::reset_value(&d);
                Ok(<Text<NoValidation, Optional> as ConfigType>::format_default(&d))
            },
            Some(ConfigKey::max_fps) => {
                let d = Self::default_max_fps();
                self.max_fps = <U32<PositiveU32, Optional> as ConfigType>::reset_value(&d);
                Ok(<U32<PositiveU32, Optional> as ConfigType>::format_default(&d))
            },
            Some(ConfigKey::title_clean_regex) => {
                let d = Self::default_title_clean_regex();
                self.title_clean_regex = <List<NoValidation, Required> as ConfigType>::reset_value(&d);
                Ok(<List<NoValidation, Required> as ConfigType>::format_default(&d))
            },
            Some(ConfigKey::max_upload_retries) => {
                let d = Self::default_max_upload_retries();
                self.max_upload_retries = <U32<NoValidation, Required> as ConfigType>::reset_value(&d);
                Ok(<U32<NoValidation, Required> as ConfigType>::format_default(&d))
            },
            Some(ConfigKey::disabled_uploaders) => {
                let d = Self::default_disabled_uploaders();
                self.disabled_uploaders = <List<NoValidation, Required> as ConfigType>::reset_value(&d);
                Ok(<List<NoValidation, Required> as ConfigType>::format_default(&d))
            },
            Some(ConfigKey::thumbnail_size) => {
                let d = Self::default_thumbnail_size();
                self.thumbnail_size = <Text<ThumbnailSize, Required> as ConfigType>::reset_value(&d);
                Ok(<Text<ThumbnailSize, Required> as ConfigType>::format_default(&d))
            },
            Some(ConfigKey::thumbnail_grid) => {
                let d = Self::default_thumbnail_grid();
                self.thumbnail_grid = <Text<ThumbnailGrid, Required> as ConfigType>::reset_value(&d);
                Ok(<Text<ThumbnailGrid, Required> as ConfigType>::format_default(&d))
            },
            Some(ConfigKey::discord_webhook_url) => {
                let d = Self::default_discord_webhook_url();
                self.discord_webhook_url = <Text<NoValidation, Optional> as ConfigType>::reset_value(&d);
                Ok(<Text<NoValidation, Optional> as ConfigType>::format_default(&d))
            },
            Some(ConfigKey::upload_complete_message_template) => {
                let d = Self::default_upload_complete_message_template();
                self.upload_complete_message_template = <Text<NoValidation, Optional> as ConfigType>::reset_value(&d);
                Ok(<Text<NoValidation, Optional> as ConfigType>::format_default(&d))
            },
            Some(ConfigKey::output_directory) => {
                let d = Self::default_output_directory();
                self.output_directory = <Text<NoValidation, Required> as ConfigType>::reset_value(&d);
                Ok(<Text<NoValidation, Required> as ConfigType>::format_default(&d))
            },
            Some(ConfigKey::min_free_space) => {
                let d = Self::default_min_free_space();
                self.min_free_space = <FileSize<NoValidation, Required> as ConfigType>::reset_value(&d);
                Ok(<FileSize<NoValidation, Required> as ConfigType>::format_default(&d))
            },
            Some(ConfigKey::retention_max_age) => {
                let d = Self::default_retention_max_age();
                self.retention_max_age = <Duration<NoValidation, Optional> as ConfigType>::reset_value(&d);
                Ok(<Duration<NoValidation, Optional> as ConfigType>::format_default(&d))
            },
            Some(ConfigKey::retention_keep_latest_per_user) => {
                let d = Self::default_retention_keep_latest_per_user();
                self.retention_keep_latest_per_user = <U32<PositiveU32, Optional> as ConfigType>::reset_value(&d);
                Ok(<U32<PositiveU32, Optional> as ConfigType>::format_default(&d))
            },
            None => Err(ConfigError::UnknownKey(owned(key))),
        }
    }

    /// Format a setting's default.
    pub fn get_default_string(&self, key: ConfigKey) -> (r: String)
        ensures
            r@ == Self::spec_default_text(key),
    {
        match key {
            ConfigKey::monitors => <List<NoValidation, Required> as ConfigType>::format_default(&Self::default_monitors()),
            ConfigKey::min_stream_duration => <Duration<NoValidation, Optional> as ConfigType>::format_default(&Self::default_min_stream_duration()),
            ConfigKey::stream_reconnect_delay => <Duration<NoValidation, Optional> as ConfigType>::format_default(&Self::default_stream_reconnect_delay()),
            ConfigKey::stream_metadata_refresh_interval => <Duration<NoValidation, Optional> as ConfigType>::format_default(&Self::default_stream_metadata_refresh_interval()),
            ConfigKey::monitor_spawn_delay => <Duration<NoValidation, Required> as ConfigType>::format_default(&Self::default_monitor_spawn_delay()),
            ConfigKey::step_delay => <Duration<NoValidation, Required> as ConfigType>::format_default(&Self::default_step_delay()),
            ConfigKey::fetch_interval => <Duration<NoValidation, Required> as ConfigType>::format_default(&Self::default_fetch_interval()),
            ConfigKey::video_quality => <U32<NoValidation, Required> as ConfigType>::format_default(&Self::default_video_quality()),
            ConfigKey::video_bitrate => <Text<NoValidation, Optional> as ConfigType>::format_default(&Self::default_video_bitrate()),
            ConfigKey::max_bitrate => <Text<NoValidation, Optional> as ConfigType>::format_default(&Self::default_max_bitrate()),
            ConfigKey::max_fps => <U32<PositiveU32, Optional> as ConfigType>::format_default(&Self::default_max_fps()),
            ConfigKey::title_clean_regex => <List<NoValidation, Required> as ConfigType>::format_default(&Self::default_title_clean_regex()),
            ConfigKey::max_upload_retries => <U32<NoValidation, Required> as ConfigType>::format_default(&Self::default_max_upload_retries()),
            ConfigKey::disabled_uploaders => <List<NoValidation, Required> as ConfigType>::format_default(&Self::default_disabled_uploaders()),
            ConfigKey::thumbnail_size => <Text<ThumbnailSize, Required> as ConfigType>::format_default(&Self::default_thumbnail_size()),
            ConfigKey::thumbnail_grid => <Text<ThumbnailGrid, Required> as ConfigType>::format_default(&Self::default_thumbnail_grid()),
            ConfigKey::discord_webhook_url => <Text<NoValidation, Optional> as ConfigType>::format_default(&Self::default_discord_webhook_url()),
            ConfigKey::upload_complete_message_template => <Text<NoValidation, Optional> as ConfigType>::format_default(&Self::default_upload_complete_message_template()),
            ConfigKey::output_directory => <Text<NoValidation, Required> as ConfigType>::format_default(&Self::default_output_directory()),
            ConfigKey::min_free_space => <FileSize<NoValidation, Required> as ConfigType>::format_default(&Self::default_min_free_space()),
            ConfigKey::retention_max_age => <Duration<NoValidation, Optional> as ConfigType>::format_default(&Self::default_retention_max_age()),
            ConfigKey::retention_keep_latest_per_user => <U32<PositiveU32, Optional> as ConfigType>::format_default(&Self::default_retention_keep_latest_per_user()),
        }
    }

    /// A setting's description; `unknown key` for a name that is no setting.
    pub fn get_description(&self, key: &str) -> (r: String)
        ensures
            r@ == match ConfigKey::spec_from_key(key@) {
                Some(k) => Self::spec_description(k),
                None => "unknown key"@,
            },
    {
        match ConfigKey::from_key(key) {
            Some(ConfigKey::monitors) => owned("List of platform_id:username to monitor"),
            Some(ConfigKey::min_stream_duration) => owned("Minimum recorded duration required before post-processing. Accepts values like 5m, 90s, or 1h."),
            Some(ConfigKey::stream_reconnect_delay) => owned("How long to wait for a stream continuation before post-processing. Accepts values like 5m, 30s, or 1h."),
            Some(ConfigKey::stream_metadata_refresh_interval) => owned("Refresh extracted stream metadata during active recordings. Accepts values like 30s, 5m, or 1h."),
            Some(ConfigKey::monitor_spawn_delay) => owned("Delay between spawning each monitor task on startup or config reload. Accepts values like 500ms, 2s, or 5s."),
            Some(ConfigKey::step_delay) => owned("Delay between each step in a platform. Accepts values like 500ms, 2s, or 1m."),
            Some(ConfigKey::fetch_interval) => owned("How often monitors are fetched. Accepts values like 30s, 2m, or 1h."),
            Some(ConfigKey::video_quality) => owned("Quality target for variable bitrate video encoding (lower is better)"),
            Some(ConfigKey::video_bitrate) => owned("Constant video bitrate for CBR encoding (e.g. 6M, 5000k). When set, uses CBR mode and overrides video_quality."),
            Some(ConfigKey::max_bitrate) => owned("Maximum video bitrate (e.g. 6M, 2500k). When set, adds -maxrate and -bufsize to ffmpeg"),
            Some(ConfigKey::max_fps) => owned("Maximum framerate a stream will be recorded at."),
            Some(ConfigKey::title_clean_regex) => owned("Global regular expressions used to clean stream titles for uploader naming"),
            Some(ConfigKey::max_upload_retries) => owned("Maximum number of upload retries"),
            Some(ConfigKey::disabled_uploaders) => owned("List of uploaders to skip uploading to"),
            Some(ConfigKey::thumbnail_size) => owned("Size of each thumbnail in the grid, in WIDTHxHEIGHT format"),
            Some(ConfigKey::thumbnail_grid) => owned("Grid layout for thumbnails, in COLSxROWS format"),
            Some(ConfigKey::discord_webhook_url) => owned("Discord webhook URL for notifications"),
            Some(ConfigKey::upload_complete_message_template) => owned("Template for upload completion messages"),
            Some(ConfigKey::output_directory) => owned("Directory to save recordings"),
            Some(ConfigKey::min_free_space) => owned("Minimum free disk space before cleanup (e.g. 20GB, 500MB)"),
            Some(ConfigKey::retention_max_age) => owned("Delete recordings older than this age. Accepts values like 7d, 48h, or 14d."),
            Some(ConfigKey::retention_keep_latest_per_user) => owned("Keep only this many of the newest recordings per user"),
            None => owned("unknown key"),
        }
    }
}

} // verus!

verus! {

/// The keys of the given sections, section after section.
pub open spec fn keys_of_sections(sections: Seq<ConfigCategory>) -> Seq<ConfigKey>
    decreases sections.len(),
{
    if sections.len() == 0 {
        Seq::empty()
    } else {
        sections[0].spec_keys() + keys_of_sections(sections.drop_first())
    }
}

/// Each setting's name looks the setting up again.
pub proof fn lemma_key_names(k: ConfigKey)
    ensures
        ConfigKey::spec_from_key(k.spec_name()) == Some(k),
{
    reveal_strlit("monitors");
    reveal_strlit("min_stream_duration");
    reveal_strlit("stream_reconnect_delay");
    reveal_strlit("stream_metadata_refresh_interval");
    reveal_strlit("monitor_spawn_delay");
    reveal_strlit("step_delay");
    reveal_strlit("fetch_interval");
    reveal_strlit("video_quality");
    reveal_strlit("video_bitrate");
    reveal_strlit("max_bitrate");
    reveal_strlit("max_fps");
    reveal_strlit("title_clean_regex");
    reveal_strlit("max_upload_retries");
    reveal_strlit("disabled_uploaders");
    reveal_strlit("thumbnail_size");
    reveal_strlit("thumbnail_grid");
    reveal_strlit("discord_webhook_url");
    reveal_strlit("upload_complete_message_template");
    reveal_strlit("output_directory");
    reveal_strlit("min_free_space");
    reveal_strlit("retention_max_age");
    reveal_strlit("retention_keep_latest_per_user");
    match k {
        ConfigKey::monitors => {
            assert(ConfigKey::spec_from_key("monitors"@) == Some(k));
        },
        ConfigKey::min_stream_duration => {
            assert("min_stream_duration"@.len() != "monitors"@.len());
            assert(ConfigKey::spec_from_key("min_stream_duration"@) == Some(k));
        },
        ConfigKey::stream_reconnect_delay => {
            assert("stream_reconnect_delay"@.len() != "monitors"@.len());
            assert("stream_reconnect_delay"@.len() != "min_stream_duration"@.len());
            assert(ConfigKey::spec_from_key("stream_reconnect_delay"@) == Some(k));
        },
        ConfigKey::stream_metadata_refresh_interval => {
            assert("stream_metadata_refresh_interval"@.len() != "monitors"@.len());
            assert("stream_metadata_refresh_interval"@.len() != "min_stream_duration"@.len());
            assert("stream_metadata_refresh_interval"@.len() != "stream_reconnect_delay"@.len());
            assert(ConfigKey::spec_from_key("stream_metadata_refresh_interval"@) == Some(k));
        },
        ConfigKey::monitor_spawn_delay => {
            assert("monitor_spawn_delay"@.len() != "monitors"@.len());
            assert("monitor_spawn_delay"@[1] != "min_stream_duration"@[1]);
            assert("monitor_spawn_delay"@.len() != "stream_reconnect_delay"@.len());
            assert("monitor_spawn_delay"@.len() != "stream_metadata_refresh_interval"@.len());
            assert(ConfigKey::spec_from_key("monitor_spawn_delay"@) == Some(k));
        },
        ConfigKey::step_delay => {
            assert("step_delay"@.len() != "monitors"@.len());
            assert("step_delay"@.len() != "min_stream_duration"@.len());
            assert("step_delay"@.len() != "stream_reconnect_delay"@.len());
            assert("step_delay"@.len() != "stream_metadata_refresh_interval"@.len());
            assert("step_delay"@.len() != "monitor_spawn_delay"@.len());
            assert(ConfigKey::spec_from_key("step_delay"@) == Some(k));
        },
        ConfigKey::fetch_interval => {
            assert("fetch_interval"@.len() != "monitors"@.len());
            assert("fetch_interval"@.len() != "min_stream_duration"@.len());
            assert("fetch_interval"@.len() != "stream_reconnect_delay"@.len());
            assert("fetch_interval"@.len() != "stream_metadata_refresh_interval"@.len());
            assert("fetch_interval"@.len() != "monitor_spawn_delay"@.len());
            assert("fetch_interval"@.len() != "step_delay"@.len());
            assert(ConfigKey::spec_from_key("fetch_interval"@) == Some(k));
        },
        ConfigKey::video_quality => {
            assert("video_quality"@.len() != "monitors"@.len());
            assert("video_quality"@.len() != "min_stream_duration"@.len());
            assert("video_quality"@.len() != "stream_reconnect_delay"@.len());
            assert("video_quality"@.len() != "stream_metadata_refresh_interval"@.len());
            assert("video_quality"@.len() != "monitor_spawn_delay"@.len());
            assert("video_quality"@.len() != "step_delay"@.len());
            assert("video_quality"@.len() != "fetch_interval"@.len());
            assert(ConfigKey::spec_from_key("video_quality"@) == Some(k));
        },
        ConfigKey::video_bitrate => {
            assert("video_bitrate"@.len() != "monitors"@.len());
            assert("video_bitrate"@.len() != "min_stream_duration"@.len());
            assert("video_bitrate"@.len() != "stream_reconnect_delay"@.len());
            assert("video_bitrate"@.len() != "stream_metadata_refresh_interval"@.len());
            assert("video_bitrate"@.len() != "monitor_spawn_delay"@.len());
            assert("video_bitrate"@.len() != "step_delay"@.len());
            assert("video_bitrate"@.len() != "fetch_interval"@.len());
            assert("video_bitrate"@[6] != "video_quality"@[6]);
            assert(ConfigKey::spec_from_key("video_bitrate"@) == Some(k));
        },
        ConfigKey::max_bitrate => {
            assert("max_bitrate"@.len() != "monitors"@.len());
            assert("max_bitrate"@.len() != "min_stream_duration"@.len());
            assert("max_bitrate"@.len() != "stream_reconnect_delay"@.len());
            assert("max_bitrate"@.len() != "stream_metadata_refresh_interval"@.len());
            assert("max_bitrate"@.len() != "monitor_spawn_delay"@.len());
            assert("max_bitrate"@.len() != "step_delay"@.len());
            assert("max_bitrate"@.len() != "fetch_interval"@.len());
            assert("max_bitrate"@.len() != "video_quality"@.len());
            assert("max_bitrate"@.len() != "video_bitrate"@.len());
            assert(ConfigKey::spec_from_key("max_bitrate"@) == Some(k));
        },
        ConfigKey::max_fps => {
            assert("max_fps"@.len() != "monitors"@.len());
            assert("max_fps"@.len() != "min_stream_duration"@.len());
            assert("max_fps"@.len() != "stream_reconnect_delay"@.len());
            assert("max_fps"@.len() != "stream_metadata_refresh_interval"@.len());
            assert("max_fps"@.len() != "monitor_spawn_delay"@.len());
            assert("max_fps"@.len() != "step_delay"@.len());
            assert("max_fps"@.len() != "fetch_interval"@.len());
            assert("max_fps"@.len() != "video_quality"@.len());
            assert("max_fps"@.len() != "video_bitrate"@.len());
            assert("max_fps"@.len() != "max_bitrate"@.len());
            assert(ConfigKey::spec_from_key("max_fps"@) == Some(k));
        },
        ConfigKey::title_clean_regex => {
            assert("title_clean_regex"@.len() != "monitors"@.len());
            assert("title_clean_regex"@.len() != "min_stream_duration"@.len());
            assert("title_clean_regex"@.len() != "stream_reconnect_delay"@.len());
            assert("title_clean_regex"@.len() != "stream_metadata_refresh_interval"@.len());
            assert("title_clean_regex"@.len() != "monitor_spawn_delay"@.len());
            assert("title_clean_regex"@.len() != "step_delay"@.len());
            assert("title_clean_regex"@.len() != "fetch_interval"@.len());
            assert("title_clean_regex"@.len() != "video_quality"@.len());
            assert("title_clean_regex"@.len() != "video_bitrate"@.len());
            assert("title_clean_regex"@.len() != "max_bitrate"@.len());
            assert("title_clean_regex"@.len() != "max_fps"@.len());
            assert(ConfigKey::spec_from_key("title_clean_regex"@) == Some(k));
        },
        ConfigKey::max_upload_retries => {
            assert("max_upload_retries"@.len() != "monitors"@.len());
            assert("max_upload_retries"@.len() != "min_stream_duration"@.len());
            assert("max_upload_retries"@.len() != "stream_reconnect_delay"@.len());
            assert("max_upload_retries"@.len() != "stream_metadata_refresh_interval"@.len());
            assert("max_upload_retries"@.len() != "monitor_spawn_delay"@.len());
            assert("max_upload_retries"@.len() != "step_delay"@.len());
            assert("max_upload_retries"@.len() != "fetch_interval"@.len());
            assert("max_upload_retries"@.len() != "video_quality"@.len());
            assert("max_upload_retries"@.len() != "video_bitrate"@.len());
            assert("max_upload_retries"@.len() != "max_bitrate"@.len());
            assert("max_upload_retries"@.len() != "max_fps"@.len());
            assert("max_upload_retries"@.len() != "title_clean_regex"@.len());
            assert(ConfigKey::spec_from_key("max_upload_retries"@) == Some(k));
        },
        ConfigKey::disabled_uploaders => {
            assert("disabled_uploaders"@.len() != "monitors"@.len());
            assert("disabled_uploaders"@.len() != "min_stream_duration"@.len());
            assert("disabled_uploaders"@.len() != "stream_reconnect_delay"@.len());
            assert("disabled_uploaders"@.len() != "stream_metadata_refresh_interval"@.len());
            assert("disabled_uploaders"@.len() != "monitor_spawn_delay"@.len());
            assert("disabled_uploaders"@.len() != "step_delay"@.len());
            assert("disabled_uploaders"@.len() != "fetch_interval"@.len());
            assert("disabled_uploaders"@.len() != "video_quality"@.len());
            assert("disabled_uploaders"@.len() != "video_bitrate"@.len());
            assert("disabled_uploaders"@.len() != "max_bitrate"@.len());
            assert("disabled_uploaders"@.len() != "max_fps"@.len());
            assert("disabled_uploaders"@.len() != "title_clean_regex"@.len());
            assert("disabled_uploaders"@[0] != "max_upload_retries"@[0]);
            assert(ConfigKey::spec_from_key("disabled_uploaders"@) == Some(k));
        },
        ConfigKey::thumbnail_size => {
            assert("thumbnail_size"@.len() != "monitors"@.len());
            assert("thumbnail_size"@.len() != "min_stream_duration"@.len());
            assert("thumbnail_size"@.len() != "stream_reconnect_delay"@.len());
            assert("thumbnail_size"@.len() != "stream_metadata_refresh_interval"@.len());
            assert("thumbnail_size"@.len() != "monitor_spawn_delay"@.len());
            assert("thumbnail_size"@.len() != "step_delay"@.len());
            assert("thumbnail_size"@[0] != "fetch_interval"@[0]);
            assert("thumbnail_size"@.len() != "video_quality"@.len());
            assert("thumbnail_size"@.len() != "video_bitrate"@.len());
            assert("thumbnail_size"@.len() != "max_bitrate"@.len());
            assert("thumbnail_size"@.len() != "max_fps"@.len());
            assert("thumbnail_size"@.len() != "title_clean_regex"@.len());
            assert("thumbnail_size"@.len() != "max_upload_retries"@.len());
            assert("thumbnail_size"@.len() != "disabled_uploaders"@.len());
            assert(ConfigKey::spec_from_key("thumbnail_size"@) == Some(k));
        },
        ConfigKey::thumbnail_grid => {
            assert("thumbnail_grid"@.len() != "monitors"@.len());
            assert("thumbnail_grid"@.len() != "min_stream_duration"@.len());
            assert("thumbnail_grid"@.len() != "stream_reconnect_delay"@.len());
            assert("thumbnail_grid"@.len() != "stream_metadata_refresh_interval"@.len());
            assert("thumbnail_grid"@.len() != "monitor_spawn_delay"@.len());
            assert("thumbnail_grid"@.len() != "step_delay"@.len());
            assert("thumbnail_grid"@[0] != "fetch_interval"@[0]);
            assert("thumbnail_grid"@.len() != "video_quality"@.len());
            assert("thumbnail_grid"@.len() != "video_bitrate"@.len());
            assert("thumbnail_grid"@.len() != "max_bitrate"@.len());
            assert("thumbnail_grid"@.len() != "max_fps"@.len());
            assert("thumbnail_grid"@.len() != "title_clean_regex"@.len());
            assert("thumbnail_grid"@.len() != "max_upload_retries"@.len());
            assert("thumbnail_grid"@.len() != "disabled_uploaders"@.len());
            assert("thumbnail_grid"@[10] != "thumbnail_size"@[10]);
            assert(ConfigKey::spec_from_key("thumbnail_grid"@) == Some(k));
        },
        ConfigKey::discord_webhook_url => {
            assert("discord_webhook_url"@.len() != "monitors"@.len());
            assert("discord_webhook_url"@[0] != "min_stream_duration"@[0]);
            assert("discord_webhook_url"@.len() != "stream_reconnect_delay"@.len());
            assert("discord_webhook_url"@.len() != "stream_metadata_refresh_interval"@.len());
            assert("discord_webhook_url"@[0] != "monitor_spawn_delay"@[0]);
            assert("discord_webhook_url"@.len() != "step_delay"@.len());
            assert("discord_webhook_url"@.len() != "fetch_interval"@.len());
            assert("discord_webhook_url"@.len() != "video_quality"@.len());
            assert("discord_webhook_url"@.len() != "video_bitrate"@.len());
            assert("discord_webhook_url"@.len() != "max_bitrate"@.len());
            assert("discord_webhook_url"@.len() != "max_fps"@.len());
            assert("discord_webhook_url"@.len() != "title_clean_regex"@.len());
            assert("discord_webhook_url"@.len() != "max_upload_retries"@.len());
            assert("discord_webhook_url"@.len() != "disabled_uploaders"@.len());
            assert("discord_webhook_url"@.len() != "thumbnail_size"@.len());
            assert("discord_webhook_url"@.len() != "thumbnail_grid"@.len());
            assert(ConfigKey::spec_from_key("discord_webhook_url"@) == Some(k));
        },
        ConfigKey::upload_complete_message_template => {
            assert("upload_complete_message_template"@.len() != "monitors"@.len());
            assert("upload_complete_message_template"@.len() != "min_stream_duration"@.len());
            assert("upload_complete_message_template"@.len() != "stream_reconnect_delay"@.len());
            assert("upload_complete_message_template"@[0] != "stream_metadata_refresh_interval"@[0]);
            assert("upload_complete_message_template"@.len() != "monitor_spawn_delay"@.len());
            assert("upload_complete_message_template"@.len() != "step_delay"@.len());
            assert("upload_complete_message_template"@.len() != "fetch_interval"@.len());
            assert("upload_complete_message_template"@.len() != "video_quality"@.len());
            assert("upload_complete_message_template"@.len() != "video_bitrate"@.len());
            assert("upload_complete_message_template"@.len() != "max_bitrate"@.len());
            assert("upload_complete_message_template"@.len() != "max_fps"@.len());
            assert("upload_complete_message_template"@.len() != "title_clean_regex"@.len());
            assert("upload_complete_message_template"@.len() != "max_upload_retries"@.len());
            assert("upload_complete_message_template"@.len() != "disabled_uploaders"@.len());
            assert("upload_complete_message_template"@.len() != "thumbnail_size"@.len());
            assert("upload_complete_message_template"@.len() != "thumbnail_grid"@.len());
            assert("upload_complete_message_template"@.len() != "discord_webhook_url"@.len());
            assert(ConfigKey::spec_from_key("upload_complete_message_template"@) == Some(k));
        },
        ConfigKey::output_directory => {
            assert("output_directory"@.len() != "monitors"@.len());
            assert("output_directory"@.len() != "min_stream_duration"@.len());
            assert("output_directory"@.len() != "stream_reconnect_delay"@.len());
            assert("output_directory"@.len() != "stream_metadata_refresh_interval"@.len());
            assert("output_directory"@.len() != "monitor_spawn_delay"@.len());
            assert("output_directory"@.len() != "step_delay"@.len());
            assert("output_directory"@.len() != "fetch_interval"@.len());
            assert("output_directory"@.len() != "video_quality"@.len());
            assert("output_directory"@.len() != "video_bitrate"@.len());
            assert("output_directory"@.len() != "max_bitrate"@.len());
            assert("output_directory"@.len() != "max_fps"@.len());
            assert("output_directory"@.len() != "title_clean_regex"@.len());
            assert("output_directory"@.len() != "max_upload_retries"@.len());
            assert("output_directory"@.len() != "disabled_uploaders"@.len());
            assert("output_directory"@.len() != "thumbnail_size"@.len());
            assert("output_directory"@.len() != "thumbnail_grid"@.len());
            assert("output_directory"@.len() != "discord_webhook_url"@.len());
            assert("output_directory"@.len() != "upload_complete_message_template"@.len());
            assert(ConfigKey::spec_from_key("output_directory"@) == Some(k));
        },
        ConfigKey::min_free_space => {
            assert("min_free_space"@.len() != "monitors"@.len());
            assert("min_free_space"@.len() != "min_stream_duration"@.len());
            assert("min_free_space"@.len() != "stream_reconnect_delay"@.len());
            assert("min_free_space"@.len() != "stream_metadata_refresh_interval"@.len());
            assert("min_free_space"@.len() != "monitor_spawn_delay"@.len());
            assert("min_free_space"@.len() != "step_delay"@.len());
            assert("min_free_space"@[0] != "fetch_interval"@[0]);
            assert("min_free_space"@.len() != "video_quality"@.len());
            assert("min_free_space"@.len() != "video_bitrate"@.len());
            assert("min_free_space"@.len() != "max_bitrate"@.len());
            assert("min_free_space"@.len() != "max_fps"@.len());
            assert("min_free_space"@.len() != "title_clean_regex"@.len());
            assert("min_free_space"@.len() != "max_upload_retries"@.len());
            assert("min_free_space"@.len() != "disabled_uploaders"@.len());
            assert("min_free_space"@[0] != "thumbnail_size"@[0]);
            assert("min_free_space"@[0] != "thumbnail_grid"@[0]);
            assert("min_free_space"@.len() != "discord_webhook_url"@.len());
            assert("min_free_space"@.len() != "upload_complete_message_template"@.len());
            assert("min_free_space"@.len() != "output_directory"@.len());
            assert(ConfigKey::spec_from_key("min_free_space"@) == Some(k));
        },
        ConfigKey::retention_max_age => {
            assert("retention_max_age"@.len() != "monitors"@.len());
            assert("retention_max_age"@.len() != "min_stream_duration"@.len());
            assert("retention_max_age"@.len() != "stream_reconnect_delay"@.len());
            assert("retention_max_age"@.len() != "stream_metadata_refresh_interval"@.len());
            assert("retention_max_age"@.len() != "monitor_spawn_delay"@.len());
            assert("retention_max_age"@.len() != "step_delay"@.len());
            assert("retention_max_age"@.len() != "fetch_interval"@.len());
            assert("retention_max_age"@.len() != "video_quality"@.len());
            assert("retention_max_age"@.len() != "video_bitrate"@.len());
            assert("retention_max_age"@.len() != "max_bitrate"@.len());
            assert("retention_max_age"@.len() != "max_fps"@.len());
            assert("retention_max_age"@[0] != "title_clean_regex"@[0]);
            assert("retention_max_age"@.len() != "max_upload_retries"@.len());
            assert("retention_max_age"@.len() != "disabled_uploaders"@.len());
            assert("retention_max_age"@.len() != "thumbnail_size"@.len());
            assert("retention_max_age"@.len() != "thumbnail_grid"@.len());
            assert("retention_max_age"@.len() != "discord_webhook_url"@.len());
            assert("retention_max_age"@.len() != "upload_complete_message_template"@.len());
            assert("retention_max_age"@.len() != "output_directory"@.len());
            assert("retention_max_age"@.len() != "min_free_space"@.len());
            assert(ConfigKey::spec_from_key("retention_max_age"@) == Some(k));
        },
        ConfigKey::retention_keep_latest_per_user => {
            assert("retention_keep_latest_per_user"@.len() != "monitors"@.len());
            assert("retention_keep_latest_per_user"@.len() != "min_stream_duration"@.len());
            assert("retention_keep_latest_per_user"@.len() != "stream_reconnect_delay"@.len());
            assert("retention_keep_latest_per_user"@.len() != "stream_metadata_refresh_interval"@.len());
            assert("retention_keep_latest_per_user"@.len() != "monitor_spawn_delay"@.len());
            assert("retention_keep_latest_per_user"@.len() != "step_delay"@.len());
            assert("retention_keep_latest_per_user"@.len() != "fetch_interval"@.len());
            assert("retention_keep_latest_per_user"@.len() != "video_quality"@.len());
            assert("retention_keep_latest_per_user"@.len() != "video_bitrate"@.len());
            assert("retention_keep_latest_per_user"@.len() != "max_bitrate"@.len());
            assert("retention_keep_latest_per_user"@.len() != "max_fps"@.len());
            assert("retention_keep_latest_per_user"@.len() != "title_clean_regex"@.len());
            assert("retention_keep_latest_per_user"@.len() != "max_upload_retries"@.len());
            assert("retention_keep_latest_per_user"@.len() != "disabled_uploaders"@.len());
            assert("retention_keep_latest_per_user"@.len() != "thumbnail_size"@.len());
            assert("retention_keep_latest_per_user"@.len() != "thumbnail_grid"@.len());
            assert("retention_keep_latest_per_user"@.len() != "discord_webhook_url"@.len());
            assert("retention_keep_latest_per_user"@.len() != "upload_complete_message_template"@.len());
            assert("retention_keep_latest_per_user"@.len() != "output_directory"@.len());
            assert("retention_keep_latest_per_user"@.len() != "min_free_space"@.len());
            assert("retention_keep_latest_per_user"@.len() != "retention_max_age"@.len());
            assert(ConfigKey::spec_from_key("retention_keep_latest_per_user"@) == Some(k));
        },
    }
}

/// Every setting belongs to exactly one section: its own, which lists it; no setting is
/// outside the sections; and the sections' lists, one after another, are the list of all
/// settings in order.
pub proof fn lemma_key_sections()
    ensures
        keys_of_sections(ConfigCategory::spec_all()) == ConfigKey::spec_all(),
        forall|k: ConfigKey| #[trigger] k.spec_category() is Some,
        forall|k: ConfigKey, c: ConfigCategory|
            #[trigger] c.spec_keys().contains(k) <==> k.spec_category() == Some(c),
{
    reveal_with_fuel(keys_of_sections, 8);
    assert(keys_of_sections(ConfigCategory::spec_all()) =~= ConfigKey::spec_all());
    assert forall|k: ConfigKey, c: ConfigCategory|
        #[trigger] c.spec_keys().contains(k) <==> k.spec_category() == Some(c) by {
        if k.spec_category() == Some(c) {
            match k {
                ConfigKey::monitors => assert(c.spec_keys()[0] == k),
                ConfigKey::min_stream_duration => assert(c.spec_keys()[1] == k),
                ConfigKey::stream_reconnect_delay => assert(c.spec_keys()[2] == k),
                ConfigKey::stream_metadata_refresh_interval => assert(c.spec_keys()[3] == k),
                ConfigKey::monitor_spawn_delay => assert(c.spec_keys()[4] == k),
                ConfigKey::step_delay => assert(c.spec_keys()[5] == k),
                ConfigKey::fetch_interval => assert(c.spec_keys()[6] == k),
                ConfigKey::video_quality => assert(c.spec_keys()[0] == k),
                ConfigKey::video_bitrate => assert(c.spec_keys()[1] == k),
                ConfigKey::max_bitrate => assert(c.spec_keys()[2] == k),
                ConfigKey::max_fps => assert(c.spec_keys()[3] == k),
                ConfigKey::title_clean_regex => assert(c.spec_keys()[0] == k),
                ConfigKey::max_upload_retries => assert(c.spec_keys()[0] == k),
                ConfigKey::disabled_uploaders => assert(c.spec_keys()[1] == k),
                ConfigKey::thumbnail_size => assert(c.spec_keys()[0] == k),
                ConfigKey::thumbnail_grid => assert(c.spec_keys()[1] == k),
                ConfigKey::discord_webhook_url => assert(c.spec_keys()[0] == k),
                ConfigKey::upload_complete_message_template => assert(c.spec_keys()[1] == k),
                ConfigKey::output_directory => assert(c.spec_keys()[0] == k),
                ConfigKey::min_free_space => assert(c.spec_keys()[1] == k),
                ConfigKey::retention_max_age => assert(c.spec_keys()[2] == k),
                ConfigKey::retention_keep_latest_per_user => assert(c.spec_keys()[3] == k),
            }
        }
    }
}

/// Setting one key leaves every other key as it was, and the key that was set passes
/// validation; so a valid configuration stays valid.
pub proof fn lemma_set_keeps_others(old: Config, k: ConfigKey, raw: Seq<char>, new: Config)
    requires
        old.spec_set_ok(k, raw, new),
    ensures
        forall|k2: ConfigKey|
            k2 != k ==> #[trigger] new.spec_value_text(k2) == old.spec_value_text(k2)
                && new.spec_field_check(k2) == old.spec_field_check(k2),
        new.spec_field_check(k) is None,
        old.spec_valid() ==> new.spec_valid(),
{
    assert forall|k2: ConfigKey| k2 != k implies #[trigger] new.spec_value_text(k2)
        == old.spec_value_text(k2) && new.spec_field_check(k2) == old.spec_field_check(k2) by {
        match k2 {
            ConfigKey::monitors => {},
            ConfigKey::min_stream_duration => {},
            ConfigKey::stream_reconnect_delay => {},
            ConfigKey::stream_metadata_refresh_interval => {},
            ConfigKey::monitor_spawn_delay => {},
            ConfigKey::step_delay => {},
            ConfigKey::fetch_interval => {},
            ConfigKey::video_quality => {},
            ConfigKey::video_bitrate => {},
            ConfigKey::max_bitrate => {},
            ConfigKey::max_fps => {},
            ConfigKey::title_clean_regex => {},
            ConfigKey::max_upload_retries => {},
            ConfigKey::disabled_uploaders => {},
            ConfigKey::thumbnail_size => {},
            ConfigKey::thumbnail_grid => {},
            ConfigKey::discord_webhook_url => {},
            ConfigKey::upload_complete_message_template => {},
            ConfigKey::output_directory => {},
            ConfigKey::min_free_space => {},
            ConfigKey::retention_max_age => {},
            ConfigKey::retention_keep_latest_per_user => {},
        }
    }
    if old.spec_valid() {
        assert forall|k2: ConfigKey| #[trigger] new.spec_field_check(k2) is None by {
            if k2 != k {
                assert(old.spec_field_check(k2) is None);
            }
        }
    }
}

/// Resetting a key makes it show its default and leaves every other key as it was.
pub proof fn lemma_reset_shows_default(old: Config, k: ConfigKey, new: Config)
    requires
        old.spec_reset(k, new),
    ensures
        new.spec_value_text(k) == Config::spec_default_text(k),
        forall|k2: ConfigKey|
            k2 != k ==> #[trigger] new.spec_value_text(k2) == old.spec_value_text(k2)
                && new.spec_field_check(k2) == old.spec_field_check(k2),
{
    match k {
        ConfigKey::monitors => <List<NoValidation, Required> as ConfigType>::lemma_reset_shows_default(
            Config::spec_default_monitors(),
        ),
        ConfigKey::min_stream_duration => <Duration<NoValidation, Optional> as ConfigType>::lemma_reset_shows_default(
            Config::spec_default_min_stream_duration(),
        ),
        ConfigKey::stream_reconnect_delay => <Duration<NoValidation, Optional> as ConfigType>::lemma_reset_shows_default(
            Config::spec_default_stream_reconnect_delay(),
        ),
        ConfigKey::stream_metadata_refresh_interval => <Duration<NoValidation, Optional> as ConfigType>::lemma_reset_shows_default(
            Config::spec_default_stream_metadata_refresh_interval(),
        ),
        ConfigKey::monitor_spawn_delay => <Duration<NoValidation, Required> as ConfigType>::lemma_reset_shows_default(
            Config::spec_default_monitor_spawn_delay(),
        ),
        ConfigKey::step_delay => <Duration<NoValidation, Required> as ConfigType>::lemma_reset_shows_default(
            Config::spec_default_step_delay(),
        ),
        ConfigKey::fetch_interval => <Duration<NoValidation, Required> as ConfigType>::lemma_reset_shows_default(
            Config::spec_default_fetch_interval(),
        ),
        ConfigKey::video_quality => <U32<NoValidation, Required> as ConfigType>::lemma_reset_shows_default(
            Config::spec_default_video_quality(),
        ),
        ConfigKey::video_bitrate => <Text<NoValidation, Optional> as ConfigType>::lemma_reset_shows_default(
            Config::spec_default_video_bitrate(),
        ),
        ConfigKey::max_bitrate => <Text<NoValidation, Optional> as ConfigType>::lemma_reset_shows_default(
            Config::spec_default_max_bitrate(),
        ),
        ConfigKey::max_fps => <U32<PositiveU32, Optional> as ConfigType>::lemma_reset_shows_default(
            Config::spec_default_max_fps(),
        ),
        ConfigKey::title_clean_regex => <List<NoValidation, Required> as ConfigType>::lemma_reset_shows_default(
            Config::spec_default_title_clean_regex(),
        ),
        ConfigKey::max_upload_retries => <U32<NoValidation, Required> as ConfigType>::lemma_reset_shows_default(
            Config::spec_default_max_upload_retries(),
        ),
        ConfigKey::disabled_uploaders => <List<NoValidation, Required> as ConfigType>::lemma_reset_shows_default(
            Config::spec_default_disabled_uploaders(),
        ),
        ConfigKey::thumbnail_size => <Text<ThumbnailSize, Required> as ConfigType>::lemma_reset_shows_default(
            Config::spec_default_thumbnail_size(),
        ),
        ConfigKey::thumbnail_grid => <Text<ThumbnailGrid, Required> as ConfigType>::lemma_reset_shows_default(
            Config::spec_default_thumbnail_grid(),
        ),
        ConfigKey::discord_webhook_url => <Text<NoValidation, Optional> as ConfigType>::lemma_reset_shows_default(
            Config::spec_default_discord_webhook_url(),
        ),
        ConfigKey::upload_complete_message_template => <Text<NoValidation, Optional> as ConfigType>::lemma_reset_shows_default(
            Config::spec_default_upload_complete_message_template(),
        ),
        ConfigKey::output_directory => <Text<NoValidation, Required> as ConfigType>::lemma_reset_shows_default(
            Config::spec_default_output_directory(),
        ),
        ConfigKey::min_free_space => <FileSize<NoValidation, Required> as ConfigType>::lemma_reset_shows_default(
            Config::spec_default_min_free_space(),
        ),
        ConfigKey::retention_max_age => <Duration<NoValidation, Optional> as ConfigType>::lemma_reset_shows_default(
            Config::spec_default_retention_max_age(),
        ),
        ConfigKey::retention_keep_latest_per_user => <U32<PositiveU32, Optional> as ConfigType>::lemma_reset_shows_default(
            Config::spec_default_retention_keep_latest_per_user(),
        ),
    }
    assert forall|k2: ConfigKey| k2 != k implies #[trigger] new.spec_value_text(k2)
        == old.spec_value_text(k2) && new.spec_field_check(k2) == old.spec_field_check(k2) by {
        match k2 {
            ConfigKey::monitors => {},
            ConfigKey::min_stream_duration => {},
            ConfigKey::stream_reconnect_delay => {},
            ConfigKey::stream_metadata_refresh_interval => {},
            ConfigKey::monitor_spawn_delay => {},
            ConfigKey::step_delay => {},
            ConfigKey::fetch_interval => {},
            ConfigKey::video_quality => {},
            ConfigKey::video_bitrate => {},
            ConfigKey::max_bitrate => {},
            ConfigKey::max_fps => {},
            ConfigKey::title_clean_regex => {},
            ConfigKey::max_upload_retries => {},
            ConfigKey::disabled_uploaders => {},
            ConfigKey::thumbnail_size => {},
            ConfigKey::thumbnail_grid => {},
            ConfigKey::discord_webhook_url => {},
            ConfigKey::upload_complete_message_template => {},
            ConfigKey::output_directory => {},
            ConfigKey::min_free_space => {},
            ConfigKey::retention_max_age => {},
            ConfigKey::retention_keep_latest_per_user => {},
        }
    }
}

/// Setting a key reads back what was set: after `set_value(k, raw)` succeeds, the key's
/// getter gives the value that `raw` stands for — the trimmed comma-separated items of a
/// list, the duration, file size or number that `raw` spells, the text itself — and an
/// optional key cleared with `none` gives its default.
pub proof fn lemma_set_reads_back(old: Config, k: ConfigKey, raw: Seq<char>, new: Config)
    requires
        old.spec_set_ok(k, raw, new),
    ensures
        k == ConfigKey::monitors ==> <List<NoValidation, Required> as ConfigType>::spec_get(new.monitors.deep_view(), Config::spec_default_monitors()) == csv_items(raw),
        k == ConfigKey::min_stream_duration ==> <Duration<NoValidation, Optional> as ConfigType>::spec_get(new.min_stream_duration.deep_view(), Config::spec_default_min_stream_duration()) == (if is_none_word(raw) { Config::spec_default_min_stream_duration() } else { parse_duration_spec(raw) }),
        k == ConfigKey::stream_reconnect_delay ==> <Duration<NoValidation, Optional> as ConfigType>::spec_get(new.stream_reconnect_delay.deep_view(), Config::spec_default_stream_reconnect_delay()) == (if is_none_word(raw) { Config::spec_default_stream_reconnect_delay() } else { parse_duration_spec(raw) }),
        k == ConfigKey::stream_metadata_refresh_interval ==> <Duration<NoValidation, Optional> as ConfigType>::spec_get(new.stream_metadata_refresh_interval.deep_view(), Config::spec_default_stream_metadata_refresh_interval()) == (if is_none_word(raw) { Config::spec_default_stream_metadata_refresh_interval() } else { parse_duration_spec(raw) }),
        k == ConfigKey::monitor_spawn_delay ==> parse_duration_spec(raw) == Some(<Duration<NoValidation, Required> as ConfigType>::spec_get(new.monitor_spawn_delay.deep_view(), Config::spec_default_monitor_spawn_delay())),
        k == ConfigKey::step_delay ==> parse_duration_spec(raw) == Some(<Duration<NoValidation, Required> as ConfigType>::spec_get(new.step_delay.deep_view(), Config::spec_default_step_delay())),
        k == ConfigKey::fetch_interval ==> parse_duration_spec(raw) == Some(<Duration<NoValidation, Required> as ConfigType>::spec_get(new.fetch_interval.deep_view(), Config::spec_default_fetch_interval())),
        k == ConfigKey::video_quality ==> parse_integer_spec(raw, false, 0, 4294967295) == Some(<U32<NoValidation, Required> as ConfigType>::spec_get(new.video_quality.deep_view(), Config::spec_default_video_quality()) as int),
        k == ConfigKey::video_bitrate ==> <Text<NoValidation, Optional> as ConfigType>::spec_get(new.video_bitrate.deep_view(), Config::spec_default_video_bitrate()) == (if is_none_word(raw) { Config::spec_default_video_bitrate() } else { Some(raw) }),
        k == ConfigKey::max_bitrate ==> <Text<NoValidation, Optional> as ConfigType>::spec_get(new.max_bitrate.deep_view(), Config::spec_default_max_bitrate()) == (if is_none_word(raw) { Config::spec_default_max_bitrate() } else { Some(raw) }),
        k == ConfigKey::max_fps ==> (if is_none_word(raw) { <U32<PositiveU32, Optional> as ConfigType>::spec_get(new.max_fps.deep_view(), Config::spec_default_max_fps()) == Config::spec_default_max_fps() } else { <U32<PositiveU32, Optional> as ConfigType>::spec_get(new.max_fps.deep_view(), Config::spec_default_max_fps()) matches Some(v) && parse_integer_spec(raw, false, 0, 4294967295) == Some(v as int) }),
        k == ConfigKey::title_clean_regex ==> <List<NoValidation, Required> as ConfigType>::spec_get(new.title_clean_regex.deep_view(), Config::spec_default_title_clean_regex()) == csv_items(raw),
        k == ConfigKey::max_upload_retries ==> parse_integer_spec(raw, false, 0, 4294967295) == Some(<U32<NoValidation, Required> as ConfigType>::spec_get(new.max_upload_retries.deep_view(), Config::spec_default_max_upload_retries()) as int),
        k == ConfigKey::disabled_uploaders ==> <List<NoValidation, Required> as ConfigType>::spec_get(new.disabled_uploaders.deep_view(), Config::spec_default_disabled_uploaders()) == csv_items(raw),
        k == ConfigKey::thumbnail_size ==> <Text<ThumbnailSize, Required> as ConfigType>::spec_get(new.thumbnail_size.deep_view(), Config::spec_default_thumbnail_size()) == raw,
        k == ConfigKey::thumbnail_grid ==> <Text<ThumbnailGrid, Required> as ConfigType>::spec_get(new.thumbnail_grid.deep_view(), Config::spec_default_thumbnail_grid()) == raw,
        k == ConfigKey::discord_webhook_url ==> <Text<NoValidation, Optional> as ConfigType>::spec_get(new.discord_webhook_url.deep_view(), Config::spec_default_discord_webhook_url()) == (if is_none_word(raw) { Config::spec_default_discord_webhook_url() } else { Some(raw) }),
        k == ConfigKey::upload_complete_message_template ==> <Text<NoValidation, Optional> as ConfigType>::spec_get(new.upload_complete_message_template.deep_view(), Config::spec_default_upload_complete_message_template()) == (if is_none_word(raw) { Config::spec_default_upload_complete_message_template() } else { Some(raw) }),
        k == ConfigKey::output_directory ==> <Text<NoValidation, Required> as ConfigType>::spec_get(new.output_directory.deep_view(), Config::spec_default_output_directory()) == raw,
        k == ConfigKey::min_free_space ==> parse_file_size_spec(raw) == Some(<FileSize<NoValidation, Required> as ConfigType>::spec_get(new.min_free_space.deep_view(), Config::spec_default_min_free_space())),
        k == ConfigKey::retention_max_age ==> <Duration<NoValidation, Optional> as ConfigType>::spec_get(new.retention_max_age.deep_view(), Config::spec_default_retention_max_age()) == (if is_none_word(raw) { Config::spec_default_retention_max_age() } else { parse_duration_spec(raw) }),
        k == ConfigKey::retention_keep_latest_per_user ==> (if is_none_word(raw) { <U32<PositiveU32, Optional> as ConfigType>::spec_get(new.retention_keep_latest_per_user.deep_view(), Config::spec_default_retention_keep_latest_per_user()) == Config::spec_default_retention_keep_latest_per_user() } else { <U32<PositiveU32, Optional> as ConfigType>::spec_get(new.retention_keep_latest_per_user.deep_view(), Config::spec_default_retention_keep_latest_per_user()) matches Some(v) && parse_integer_spec(raw, false, 0, 4294967295) == Some(v as int) }),
{
    match k {
        ConfigKey::monitors => lemma_list_reads_back::<NoValidation>(raw, Config::spec_default_monitors(), None),
        ConfigKey::min_stream_duration => lemma_duration_reads_back::<NoValidation>(raw, 0, Config::spec_default_min_stream_duration(), None),
        ConfigKey::stream_reconnect_delay => lemma_duration_reads_back::<NoValidation>(raw, 0, Config::spec_default_stream_reconnect_delay(), None),
        ConfigKey::stream_metadata_refresh_interval => lemma_duration_reads_back::<NoValidation>(raw, 0, Config::spec_default_stream_metadata_refresh_interval(), None),
        ConfigKey::monitor_spawn_delay => lemma_duration_reads_back::<NoValidation>(raw, Config::spec_default_monitor_spawn_delay(), None, None),
        ConfigKey::step_delay => lemma_duration_reads_back::<NoValidation>(raw, Config::spec_default_step_delay(), None, None),
        ConfigKey::fetch_interval => lemma_duration_reads_back::<NoValidation>(raw, Config::spec_default_fetch_interval(), None, None),
        ConfigKey::video_quality => lemma_u32_reads_back::<NoValidation>(raw, Config::spec_default_video_quality(), None, None),
        ConfigKey::video_bitrate => lemma_text_reads_back::<NoValidation>(raw, Seq::empty(), Config::spec_default_video_bitrate()),
        ConfigKey::max_bitrate => lemma_text_reads_back::<NoValidation>(raw, Seq::empty(), Config::spec_default_max_bitrate()),
        ConfigKey::max_fps => lemma_u32_reads_back::<PositiveU32>(raw, 0, Config::spec_default_max_fps(), None),
        ConfigKey::title_clean_regex => lemma_list_reads_back::<NoValidation>(raw, Config::spec_default_title_clean_regex(), None),
        ConfigKey::max_upload_retries => lemma_u32_reads_back::<NoValidation>(raw, Config::spec_default_max_upload_retries(), None, None),
        ConfigKey::disabled_uploaders => lemma_list_reads_back::<NoValidation>(raw, Config::spec_default_disabled_uploaders(), None),
        ConfigKey::thumbnail_size => lemma_text_reads_back::<ThumbnailSize>(raw, Config::spec_default_thumbnail_size(), None),
        ConfigKey::thumbnail_grid => lemma_text_reads_back::<ThumbnailGrid>(raw, Config::spec_default_thumbnail_grid(), None),
        ConfigKey::discord_webhook_url => lemma_text_reads_back::<NoValidation>(raw, Seq::empty(), Config::spec_default_discord_webhook_url()),
        ConfigKey::upload_complete_message_template => lemma_text_reads_back::<NoValidation>(raw, Seq::empty(), Config::spec_default_upload_complete_message_template()),
        ConfigKey::output_directory => lemma_text_reads_back::<NoValidation>(raw, Config::spec_default_output_directory(), None),
        ConfigKey::min_free_space => lemma_file_size_reads_back::<NoValidation>(raw, Config::spec_default_min_free_space(), None, None),
        ConfigKey::retention_max_age => lemma_duration_reads_back::<NoValidation>(raw, 0, Config::spec_default_retention_max_age(), None),
        ConfigKey::retention_keep_latest_per_user => lemma_u32_reads_back::<PositiveU32>(raw, 0, Config::spec_default_retention_keep_latest_per_user(), None),
    }
}

/// The settings that must be positive fail validation exactly when they hold zero.
pub proof fn lemma_positive_settings(c: Config)
    ensures
        c.spec_field_check(ConfigKey::max_fps) is None <==> c.max_fps != Some(0u32),
        c.spec_field_check(ConfigKey::retention_keep_latest_per_user) is None
            <==> c.retention_keep_latest_per_user != Some(0u32),
{
}

} // verus!
