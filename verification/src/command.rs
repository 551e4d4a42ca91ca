//! The requests either user interface sends to the engine.

use vstd::prelude::*;
use crate::text::opt_view;

use crate::clash_api::OutboundMode;
use crate::system_proxy::TrafficMode;

verus! {

/// A partial settings update: only the fields that are `Some` change.
#[derive(Clone, Debug, Default, PartialEq, Eq)]
pub struct SettingsPatch {
    pub core_version: Option<String>,
    pub mirror: Option<String>,
    pub auto_update_minutes: Option<u64>,
    pub mixed_port: Option<u16>,
    pub test_url: Option<String>,
    pub auto_start: Option<bool>,
    pub auto_system_proxy: Option<bool>,
    /// Applies at the next start of the core.
    pub traffic_mode: Option<TrafficMode>,
}

/// One request to the engine.
#[derive(Clone, Debug, PartialEq, Eq)]
pub enum ClientCommand {
    StartCore,
    StopCore,
    ToggleSystemProxy,
    UpdateSubscription,
    DownloadCore,
    SetOutboundMode(OutboundMode),
    /// Import a subscription link; a profile without a name of its own gets
    /// one from the engine.
    ImportSubscription { name: Option<String>, url: String },
    /// Import a local sing-box JSON file as a profile.
    ImportProfileFile(String),
    /// Rewrite the link of an existing profile.
    SetProfileUrl { name: String, url: String },
    SwitchProfile(String),
    RemoveProfile(String),
    SwitchNode { group: String, node: String },
    TestNode(String),
    TestGroup(String),
    CloseConnection(String),
    CloseAllConnections,
    UpdateSettings(SettingsPatch),
    SetTrafficMode { mode: TrafficMode, restart: bool },
    /// Switch one override fragment; `None` asks the engine to flip it.
    ToggleOverrideFragment { profile: String, id: String, enabled: Option<bool> },
}

/// A settings patch as plain values.
pub struct PatchModel {
    pub core_version: Option<Seq<char>>,
    pub mirror: Option<Seq<char>>,
    pub auto_update_minutes: Option<u64>,
    pub mixed_port: Option<u16>,
    pub test_url: Option<Seq<char>>,
    pub auto_start: Option<bool>,
    pub auto_system_proxy: Option<bool>,
    pub traffic_mode: Option<TrafficMode>,
}

impl View for SettingsPatch {
    type V = PatchModel;

    open spec fn view(&self) -> PatchModel {
        PatchModel {
            core_version: opt_view(self.core_version),
            mirror: opt_view(self.mirror),
            auto_update_minutes: self.auto_update_minutes,
            mixed_port: self.mixed_port,
            test_url: opt_view(self.test_url),
            auto_start: self.auto_start,
            auto_system_proxy: self.auto_system_proxy,
            traffic_mode: self.traffic_mode,
        }
    }
}

/// The patch that changes nothing.
pub open spec fn no_change() -> PatchModel {
    PatchModel {
        core_version: None,
        mirror: None,
        auto_update_minutes: None,
        mixed_port: None,
        test_url: None,
        auto_start: None,
        auto_system_proxy: None,
        traffic_mode: None,
    }
}

impl SettingsPatch {
    /// A patch with every field left alone.
    pub fn unchanged() -> (p: SettingsPatch)
        ensures
            p@ == no_change(),
    {
        SettingsPatch {
            core_version: None,
            mirror: None,
            auto_update_minutes: None,
            mixed_port: None,
            test_url: None,
            auto_start: None,
            auto_system_proxy: None,
            traffic_mode: None,
        }
    }
}

/// A request to the engine as plain values.
pub enum CommandModel {
    StartCore,
    StopCore,
    ToggleSystemProxy,
    UpdateSubscription,
    DownloadCore,
    SetOutboundMode(OutboundMode),
    ImportSubscription { name: Option<Seq<char>>, url: Seq<char> },
    ImportProfileFile(Seq<char>),
    SetProfileUrl { name: Seq<char>, url: Seq<char> },
    SwitchProfile(Seq<char>),
    RemoveProfile(Seq<char>),
    SwitchNode { group: Seq<char>, node: Seq<char> },
    TestNode(Seq<char>),
    TestGroup(Seq<char>),
    CloseConnection(Seq<char>),
    CloseAllConnections,
    UpdateSettings(PatchModel),
    SetTrafficMode { mode: TrafficMode, restart: bool },
    ToggleOverrideFragment { profile: Seq<char>, id: Seq<char>, enabled: Option<bool> },
}

impl View for ClientCommand {
    type V = CommandModel;

    open spec fn view(&self) -> CommandModel {
        match self {
            ClientCommand::StartCore => CommandModel::StartCore,
            ClientCommand::StopCore => CommandModel::StopCore,
            ClientCommand::ToggleSystemProxy => CommandModel::ToggleSystemProxy,
            ClientCommand::UpdateSubscription => CommandModel::UpdateSubscription,
            ClientCommand::DownloadCore => CommandModel::DownloadCore,
            ClientCommand::SetOutboundMode(m) => CommandModel::SetOutboundMode(*m),
            ClientCommand::ImportSubscription { name, url } => CommandModel::ImportSubscription {
                name: opt_view(*name),
                url: url@,
            },
            ClientCommand::ImportProfileFile(p) => CommandModel::ImportProfileFile(p@),
            ClientCommand::SetProfileUrl { name, url } => CommandModel::SetProfileUrl {
                name: name@,
                url: url@,
            },
            ClientCommand::SwitchProfile(n) => CommandModel::SwitchProfile(n@),
            ClientCommand::RemoveProfile(n) => CommandModel::RemoveProfile(n@),
            ClientCommand::SwitchNode { group, node } => CommandModel::SwitchNode {
                group: group@,
                node: node@,
            },
            ClientCommand::TestNode(n) => CommandModel::TestNode(n@),
            ClientCommand::TestGroup(g) => CommandModel::TestGroup(g@),
            ClientCommand::CloseConnection(id) => CommandModel::CloseConnection(id@),
            ClientCommand::CloseAllConnections => CommandModel::CloseAllConnections,
            ClientCommand::UpdateSettings(p) => CommandModel::UpdateSettings(p@),
            ClientCommand::SetTrafficMode { mode, restart } => CommandModel::SetTrafficMode {
                mode: *mode,
                restart: *restart,
            },
            ClientCommand::ToggleOverrideFragment { profile, id, enabled } =>
                CommandModel::ToggleOverrideFragment { profile: profile@, id: id@, enabled: *enabled },
        }
    }
}

/// The short name of a request, shown while it is in flight.
pub open spec fn command_label_spec(c: CommandModel) -> Seq<char> {
    match c {
        CommandModel::StartCore => "启动内核"@,
        CommandModel::StopCore => "停止内核"@,
        CommandModel::ToggleSystemProxy => "切换系统代理"@,
        CommandModel::UpdateSubscription => "更新订阅"@,
        CommandModel::DownloadCore => "下载内核"@,
        CommandModel::SetOutboundMode(_) => "切换出站模式"@,
        CommandModel::ImportSubscription { .. } => "导入订阅"@,
        CommandModel::ImportProfileFile(_) => "导入本地配置"@,
        CommandModel::SetProfileUrl { .. } => "修改订阅链接"@,
        CommandModel::SwitchProfile(_) => "切换档案"@,
        CommandModel::RemoveProfile(_) => "删除档案"@,
        CommandModel::SwitchNode { .. } => "切换节点"@,
        CommandModel::TestNode(_) => "测试节点延迟"@,
        CommandModel::TestGroup(_) => "测试节点组延迟"@,
        CommandModel::CloseConnection(_) => "关闭连接"@,
        CommandModel::CloseAllConnections => "关闭全部连接"@,
        CommandModel::UpdateSettings(_) => "保存设置"@,
        CommandModel::SetTrafficMode { .. } => "切换流量模式"@,
        CommandModel::ToggleOverrideFragment { .. } => "切换覆写片段"@,
    }
}

impl ClientCommand {
    /// The short name of the request.
    pub fn label(&self) -> (s: &'static str)
        ensures
            s@ == command_label_spec(self@),
    {
        match self {
            ClientCommand::StartCore => "启动内核",
            ClientCommand::StopCore => "停止内核",
            ClientCommand::ToggleSystemProxy => "切换系统代理",
            ClientCommand::UpdateSubscription => "更新订阅",
            ClientCommand::DownloadCore => "下载内核",
            ClientCommand::SetOutboundMode(_) => "切换出站模式",
            ClientCommand::ImportSubscription { .. } => "导入订阅",
            ClientCommand::ImportProfileFile(_) => "导入本地配置",
            ClientCommand::SetProfileUrl { .. } => "修改订阅链接",
            ClientCommand::SwitchProfile(_) => "切换档案",
            ClientCommand::RemoveProfile(_) => "删除档案",
            ClientCommand::SwitchNode { .. } => "切换节点",
            ClientCommand::TestNode(_) => "测试节点延迟",
            ClientCommand::TestGroup(_) => "测试节点组延迟",
            ClientCommand::CloseConnection(_) => "关闭连接",
            ClientCommand::CloseAllConnections => "关闭全部连接",
            ClientCommand::UpdateSettings(_) => "保存设置",
            ClientCommand::SetTrafficMode { .. } => "切换流量模式",
            ClientCommand::ToggleOverrideFragment { .. } => "切换覆写片段",
        }
    }
}

} // verus!
