//! The shape of the configuration files and the values of a fresh
//! installation.

use vstd::prelude::*;

verus! {

/// How the game is launched.
#[derive(Debug, PartialEq, Eq)]
pub struct LaunchConfig {
    /// Basic launch settings.
    pub basic: BasicLaunchConfig,
    /// Memory settings.
    pub rams: RamConfig,
    /// Advanced launch settings.
    pub advanced: AdvancedLaunchConfig,
}

impl LaunchConfig {
    /// Whether `self` and `other` hold the same values, lists compared by
    /// their items.
    pub open spec fn same_as(self, other: Self) -> bool {
        &&& self.basic.same_as(other.basic)
        &&& self.rams == other.rams
        &&& self.advanced == other.advanced
    }
}

impl Clone for LaunchConfig {
    fn clone(&self) -> (copy: Self)
        ensures
            copy.same_as(*self),
    {
        LaunchConfig {
            basic: self.basic.clone(),
            rams: self.rams.clone(),
            advanced: self.advanced.clone(),
        }
    }
}

impl LaunchConfig {
    /// Whether `self` holds the values of a fresh installation.
    pub open spec fn is_fresh(self) -> bool {
        &&& self.basic.is_fresh()
        &&& self.rams.is_fresh()
        &&& self.advanced.is_fresh()
    }
}

impl Default for LaunchConfig {
    fn default() -> (fresh: Self)
        ensures
            fresh.is_fresh(),
    {
        LaunchConfig {
            basic: BasicLaunchConfig::default(),
            rams: RamConfig::default(),
            advanced: AdvancedLaunchConfig::default(),
        }
    }
}

/// Basic launch settings.
#[derive(Debug, PartialEq, Eq)]
pub struct BasicLaunchConfig {
    /// Which versions get a directory of their own: `disabled`, `modded`, `snapshot`, `modded_or_snapshot` or `all`.
    pub version_indie_type: String,
    /// What the launcher window does once the game runs: `immediately_quit`, `hide_then_quit`, `hide_then_show`, `minimize` or `constant`.
    pub launcher_visibility: String,
    /// Preferred IP stack: 4, 6, or 0 for the system's choice.
    pub prefer_ip_stack: u8,
    /// Id of the selected Java installation.
    pub selected_java: String,
    /// Known Java installations.
    pub java: Vec<JavaConfig>,
}

impl BasicLaunchConfig {
    /// Whether `self` and `other` hold the same values, lists compared by
    /// their items.
    pub open spec fn same_as(self, other: Self) -> bool {
        &&& self.version_indie_type == other.version_indie_type
        &&& self.launcher_visibility == other.launcher_visibility
        &&& self.prefer_ip_stack == other.prefer_ip_stack
        &&& self.selected_java == other.selected_java
        &&& self.java@ == other.java@
    }
}

impl Clone for BasicLaunchConfig {
    fn clone(&self) -> (copy: Self)
        ensures
            copy.same_as(*self),
    {
        let mut java: Vec<JavaConfig> = Vec::new();
        let mut i: usize = 0;
        while i < self.java.len()
            invariant
                i <= self.java.len(),
                java@ == self.java@.take(i as int),
            decreases self.java.len() - i,
        {
            java.push(self.java[i].clone());
            assert(self.java@.take(i + 1) =~= self.java@.take(i as int).push(self.java@[i as int]));
            i += 1;
        }
        assert(self.java@.take(self.java.len() as int) =~= self.java@);
        BasicLaunchConfig {
            version_indie_type: self.version_indie_type.clone(),
            launcher_visibility: self.launcher_visibility.clone(),
            prefer_ip_stack: self.prefer_ip_stack,
            selected_java: self.selected_java.clone(),
            java,
        }
    }
}

impl BasicLaunchConfig {
    /// Whether `self` holds the values of a fresh installation.
    pub open spec fn is_fresh(self) -> bool {
        &&& self.version_indie_type@ == "disabled"@
        &&& self.launcher_visibility@ == "immediately_quit"@
        &&& self.prefer_ip_stack == 4
        &&& self.selected_java@ == ""@
        &&& self.java@.len() == 0
    }
}

impl Default for BasicLaunchConfig {
    fn default() -> (fresh: Self)
        ensures
            fresh.is_fresh(),
    {
        BasicLaunchConfig {
            version_indie_type: "disabled".to_owned(),
            launcher_visibility: "immediately_quit".to_owned(),
            prefer_ip_stack: 4,
            selected_java: "".to_owned(),
            java: Vec::new(),
        }
    }
}

/// One Java installation.
#[derive(Debug, PartialEq, Eq)]
pub struct JavaConfig {
    /// Id of the installation.
    pub id: String,
    /// Where it is installed.
    pub path: String,
    /// `jre` or `jdk`; stored under the key `type`.
    pub kind: String,
    /// Major version.
    pub version: u8,
}

impl Clone for JavaConfig {
    fn clone(&self) -> (copy: Self)
        ensures
            copy == *self,
    {
        JavaConfig {
            id: self.id.clone(),
            path: self.path.clone(),
            kind: self.kind.clone(),
            version: self.version,
        }
    }
}

/// Memory settings.
#[derive(Debug, PartialEq, Eq)]
pub struct RamConfig {
    /// Whether the launcher picks the amount.
    pub auto_ram: bool,
    /// Amount in MB where it does not.
    pub custom_ram: u32,
    /// Whether memory is swapped out before launch.
    pub pre_swap: bool,
}

impl Clone for RamConfig {
    fn clone(&self) -> (copy: Self)
        ensures
            copy == *self,
    {
        RamConfig {
            auto_ram: self.auto_ram,
            custom_ram: self.custom_ram,
            pre_swap: self.pre_swap,
        }
    }
}

impl RamConfig {
    /// Whether `self` holds the values of a fresh installation.
    pub open spec fn is_fresh(self) -> bool {
        &&& self.auto_ram
        &&& self.custom_ram == 8192
        &&& !self.pre_swap
    }
}

impl Default for RamConfig {
    fn default() -> (fresh: Self)
        ensures
            fresh.is_fresh(),
    {
        RamConfig {
            auto_ram: true,
            custom_ram: 8192,
            pre_swap: false,
        }
    }
}

/// Advanced launch settings.
#[derive(Debug, PartialEq, Eq)]
pub struct AdvancedLaunchConfig {
    /// `default`, `llvmpipe`, `d3d12` or `zink`.
    pub renderer: String,
    /// Arguments for the JVM.
    pub jvm_args: String,
    /// Arguments for the game.
    pub game_args: String,
    /// Command run before launch.
    pub pre_command: String,
    /// Whether RetroWrapper is left out.
    pub disable_retrowrapper: bool,
    /// Whether the discrete GPU is asked for.
    pub use_discrete_gpu: bool,
    /// Whether `java.exe` is used in place of `javaw.exe`.
    pub use_java_exe: bool,
}

impl Clone for AdvancedLaunchConfig {
    fn clone(&self) -> (copy: Self)
        ensures
            copy == *self,
    {
        AdvancedLaunchConfig {
            renderer: self.renderer.clone(),
            jvm_args: self.jvm_args.clone(),
            game_args: self.game_args.clone(),
            pre_command: self.pre_command.clone(),
            disable_retrowrapper: self.disable_retrowrapper,
            use_discrete_gpu: self.use_discrete_gpu,
            use_java_exe: self.use_java_exe,
        }
    }
}

impl AdvancedLaunchConfig {
    /// Whether `self` holds the values of a fresh installation.
    pub open spec fn is_fresh(self) -> bool {
        &&& self.renderer@ == "default"@
        &&& self.jvm_args@ == "-XX:+UseG1GC -XX:-UseAdaptiveSizePolicy -XX:-OmitStackTraceInFastThrow -Djdk.lang.Process.allowAmbiguousCommands=true -Dfml.ignoreInvalidMinecraftCertificates=True -Dfml.ignorePatchDiscrepancies=True -Dlog4j2.formatMsgNoLookups=true -DproxySet=false -Djava.net.useSystemProxies=false"@
        &&& self.game_args@ == ""@
        &&& self.pre_command@ == ""@
        &&& !self.disable_retrowrapper
        &&& self.use_discrete_gpu
        &&& !self.use_java_exe
    }
}

impl Default for AdvancedLaunchConfig {
    fn default() -> (fresh: Self)
        ensures
            fresh.is_fresh(),
    {
        AdvancedLaunchConfig {
            renderer: "default".to_owned(),
            jvm_args: "-XX:+UseG1GC -XX:-UseAdaptiveSizePolicy -XX:-OmitStackTraceInFastThrow -Djdk.lang.Process.allowAmbiguousCommands=true -Dfml.ignoreInvalidMinecraftCertificates=True -Dfml.ignorePatchDiscrepancies=True -Dlog4j2.formatMsgNoLookups=true -DproxySet=false -Djava.net.useSystemProxies=false".to_owned(),
            game_args: "".to_owned(),
            pre_command: "".to_owned(),
            disable_retrowrapper: false,
            use_discrete_gpu: true,
            use_java_exe: false,
        }
    }
}

/// Look of the launcher.
#[derive(Debug, PartialEq, Eq)]
pub struct CustomizeConfig {
    /// `light`, `auto` or `dark`.
    pub theme: String,
    /// `zh-CN` or `en-US`.
    pub language: String,
}

impl Clone for CustomizeConfig {
    fn clone(&self) -> (copy: Self)
        ensures
            copy == *self,
    {
        CustomizeConfig {
            theme: self.theme.clone(),
            language: self.language.clone(),
        }
    }
}

impl CustomizeConfig {
    /// Whether `self` holds the values of a fresh installation.
    pub open spec fn is_fresh(self) -> bool {
        &&& self.theme@ == "auto"@
        &&& self.language@ == "zh-CN"@
    }
}

impl Default for CustomizeConfig {
    fn default() -> (fresh: Self)
        ensures
            fresh.is_fresh(),
    {
        CustomizeConfig {
            theme: "auto".to_owned(),
            language: "zh-CN".to_owned(),
        }
    }
}

/// Where components come from.
#[derive(Debug, PartialEq, Eq)]
pub struct ComponentConfig {
    /// `offical`, `balance` or `mirror`.
    pub source: String,
    /// Whether Quilt is left out of listings.
    pub ignore_quilt: bool,
    /// Whether the clipboard is watched for links.
    pub detect_clipboard: bool,
}

impl Clone for ComponentConfig {
    fn clone(&self) -> (copy: Self)
        ensures
            copy == *self,
    {
        ComponentConfig {
            source: self.source.clone(),
            ignore_quilt: self.ignore_quilt,
            detect_clipboard: self.detect_clipboard,
        }
    }
}

impl ComponentConfig {
    /// Whether `self` holds the values of a fresh installation.
    pub open spec fn is_fresh(self) -> bool {
        &&& self.source@ == "offical"@
        &&& !self.ignore_quilt
        &&& !self.detect_clipboard
    }
}

impl Default for ComponentConfig {
    fn default() -> (fresh: Self)
        ensures
            fresh.is_fresh(),
    {
        ComponentConfig {
            source: "offical".to_owned(),
            ignore_quilt: false,
            detect_clipboard: false,
        }
    }
}

/// Accessibility settings.
#[derive(Debug, PartialEq, Eq)]
pub struct AccessibilityConfig {
    /// Whether release notes are shown.
    pub release_note: bool,
    /// Whether snapshot notes are shown.
    pub snapshot_note: bool,
    /// Whether Chinese is switched on in new instances.
    pub auto_chinese: bool,
}

impl Clone for AccessibilityConfig {
    fn clone(&self) -> (copy: Self)
        ensures
            copy == *self,
    {
        AccessibilityConfig {
            release_note: self.release_note,
            snapshot_note: self.snapshot_note,
            auto_chinese: self.auto_chinese,
        }
    }
}

impl AccessibilityConfig {
    /// Whether `self` holds the values of a fresh installation.
    pub open spec fn is_fresh(self) -> bool {
        &&& !self.release_note
        &&& !self.snapshot_note
        &&& self.auto_chinese
    }
}

impl Default for AccessibilityConfig {
    fn default() -> (fresh: Self)
        ensures
            fresh.is_fresh(),
    {
        AccessibilityConfig {
            release_note: false,
            snapshot_note: false,
            auto_chinese: true,
        }
    }
}

/// The launcher's own upkeep.
#[derive(Debug, PartialEq, Eq)]
pub struct LauncherConfig {
    /// `auto`, `notice`, `major_notice` or `disable`.
    pub update_method: String,
    /// `overworld`, `nether` or `ender`.
    pub channel: String,
    /// `all`, `major` or `disable`.
    pub notification: String,
    /// Cache directory; empty for the default one.
    pub cache_dir: String,
}

impl Clone for LauncherConfig {
    fn clone(&self) -> (copy: Self)
        ensures
            copy == *self,
    {
        LauncherConfig {
            update_method: self.update_method.clone(),
            channel: self.channel.clone(),
            notification: self.notification.clone(),
            cache_dir: self.cache_dir.clone(),
        }
    }
}

impl LauncherConfig {
    /// Whether `self` holds the values of a fresh installation.
    pub open spec fn is_fresh(self) -> bool {
        &&& self.update_method@ == "auto"@
        &&& self.channel@ == "ender"@
        &&& self.notification@ == "all"@
        &&& self.cache_dir@ == ""@
    }
}

impl Default for LauncherConfig {
    fn default() -> (fresh: Self)
        ensures
            fresh.is_fresh(),
    {
        LauncherConfig {
            update_method: "auto".to_owned(),
            channel: "ender".to_owned(),
            notification: "all".to_owned(),
            cache_dir: "".to_owned(),
        }
    }
}

/// Network settings. Account and password are encrypted where they are stored.
#[derive(Debug, PartialEq, Eq)]
pub struct NetworkConfig {
    /// Whether names are resolved over HTTPS.
    pub use_doh: bool,
    /// Whether the system's proxy is used.
    pub use_system_proxy: bool,
    /// Whether the proxy below is used.
    pub use_custom_proxy: bool,
    /// Address of the custom proxy.
    pub custom_proxy_uri: String,
    /// Account at the custom proxy.
    pub custom_proxy_account: String,
    /// Password at the custom proxy.
    pub custom_proxy_password: String,
}

impl Clone for NetworkConfig {
    fn clone(&self) -> (copy: Self)
        ensures
            copy == *self,
    {
        NetworkConfig {
            use_doh: self.use_doh,
            use_system_proxy: self.use_system_proxy,
            use_custom_proxy: self.use_custom_proxy,
            custom_proxy_uri: self.custom_proxy_uri.clone(),
            custom_proxy_account: self.custom_proxy_account.clone(),
            custom_proxy_password: self.custom_proxy_password.clone(),
        }
    }
}

impl NetworkConfig {
    /// Whether `self` holds the values of a fresh installation.
    pub open spec fn is_fresh(self) -> bool {
        &&& !self.use_doh
        &&& !self.use_system_proxy
        &&& !self.use_custom_proxy
        &&& self.custom_proxy_uri@ == ""@
        &&& self.custom_proxy_account@ == ""@
        &&& self.custom_proxy_password@ == ""@
    }
}

impl Default for NetworkConfig {
    fn default() -> (fresh: Self)
        ensures
            fresh.is_fresh(),
    {
        NetworkConfig {
            use_doh: false,
            use_system_proxy: false,
            use_custom_proxy: false,
            custom_proxy_uri: "".to_owned(),
            custom_proxy_account: "".to_owned(),
            custom_proxy_password: "".to_owned(),
        }
    }
}

/// Debug settings.
#[derive(Debug, PartialEq, Eq)]
pub struct DebugConfig {
    /// Whether debug mode is on.
    pub debug_mode: bool,
}

impl Clone for DebugConfig {
    fn clone(&self) -> (copy: Self)
        ensures
            copy == *self,
    {
        DebugConfig {
            debug_mode: self.debug_mode,
        }
    }
}

impl DebugConfig {
    /// Whether `self` holds the values of a fresh installation.
    pub open spec fn is_fresh(self) -> bool {
        &&& !self.debug_mode
    }
}

impl Default for DebugConfig {
    fn default() -> (fresh: Self)
        ensures
            fresh.is_fresh(),
    {
        DebugConfig {
            debug_mode: false,
        }
    }
}

/// The accounts.
#[derive(Debug, PartialEq, Eq)]
pub struct ProfileConfig {
    /// One entry per account.
    pub profile: Vec<Profile>,
}

impl ProfileConfig {
    /// Whether `self` and `other` hold the same values, lists compared by
    /// their items.
    pub open spec fn same_as(self, other: Self) -> bool {
        &&& self.profile@ == other.profile@
    }
}

impl Clone for ProfileConfig {
    fn clone(&self) -> (copy: Self)
        ensures
            copy.same_as(*self),
    {
        let mut profile: Vec<Profile> = Vec::new();
        let mut i: usize = 0;
        while i < self.profile.len()
            invariant
                i <= self.profile.len(),
                profile@ == self.profile@.take(i as int),
            decreases self.profile.len() - i,
        {
            profile.push(self.profile[i].clone());
            assert(self.profile@.take(i + 1) =~= self.profile@.take(i as int).push(self.profile@[i as int]));
            i += 1;
        }
        assert(self.profile@.take(self.profile.len() as int) =~= self.profile@);
        ProfileConfig {
            profile,
        }
    }
}

impl ProfileConfig {
    /// Whether `self` holds the values of a fresh installation.
    pub open spec fn is_fresh(self) -> bool {
        &&& self.profile@.len() == 0
    }
}

impl Default for ProfileConfig {
    fn default() -> (fresh: Self)
        ensures
            fresh.is_fresh(),
    {
        ProfileConfig {
            profile: Vec::new(),
        }
    }
}

/// One account. The refresh token is encrypted where it is stored.
#[derive(Debug, PartialEq, Eq)]
pub struct Profile {
    /// `msa` or `legacy`; stored under the key `type`.
    pub kind: String,
    /// Refresh token.
    pub refresh_token: String,
    /// UUID of the user.
    pub uuid: String,
    /// Name of the account, for `legacy` accounts.
    pub id: Option<String>,
}

impl Clone for Profile {
    fn clone(&self) -> (copy: Self)
        ensures
            copy == *self,
    {
        Profile {
            kind: self.kind.clone(),
            refresh_token: self.refresh_token.clone(),
            uuid: self.uuid.clone(),
            id: match &self.id {
                Some(value) => Some(value.clone()),
                None => None,
            },
        }
    }
}

/// One game instance.
#[derive(Debug, PartialEq, Eq)]
pub struct InstanceConfig {
    /// Name of the instance.
    pub name: String,
    /// Description.
    pub description: String,
    /// Minecraft version.
    pub mc_version: String,
    /// `forge`, `fabric`, `quilt` or `vanilla`.
    pub loader_type: String,
    /// Version of the loader.
    pub loader_version: String,
    /// How often the instance was launched.
    pub launch_count: u32,
    /// Category.
    pub category: u8,
    /// Where the instance lives.
    pub path: Option<String>,
    /// Path of its icon.
    pub icon: Option<String>,
    /// When it was last launched.
    pub last_launch: Option<String>,
}

impl Clone for InstanceConfig {
    fn clone(&self) -> (copy: Self)
        ensures
            copy == *self,
    {
        InstanceConfig {
            name: self.name.clone(),
            description: self.description.clone(),
            mc_version: self.mc_version.clone(),
            loader_type: self.loader_type.clone(),
            loader_version: self.loader_version.clone(),
            launch_count: self.launch_count,
            category: self.category,
            path: match &self.path {
                Some(value) => Some(value.clone()),
                None => None,
            },
            icon: match &self.icon {
                Some(value) => Some(value.clone()),
                None => None,
            },
            last_launch: match &self.last_launch {
                Some(value) => Some(value.clone()),
                None => None,
            },
        }
    }
}

impl InstanceConfig {
    /// Whether `self` holds the values of a fresh installation.
    pub open spec fn is_fresh(self) -> bool {
        &&& self.name@ == "New Instance"@
        &&& self.description@ == ""@
        &&& self.mc_version@ == "1.20.1"@
        &&& self.loader_type@ == "vanilla"@
        &&& self.loader_version@ == ""@
        &&& self.launch_count == 0
        &&& self.category == 0
        &&& self.path is None
        &&& self.icon is None
        &&& self.last_launch is None
    }
}

impl Default for InstanceConfig {
    fn default() -> (fresh: Self)
        ensures
            fresh.is_fresh(),
    {
        InstanceConfig {
            name: "New Instance".to_owned(),
            description: "".to_owned(),
            mc_version: "1.20.1".to_owned(),
            loader_type: "vanilla".to_owned(),
            loader_version: "".to_owned(),
            launch_count: 0,
            category: 0,
            path: None,
            icon: None,
            last_launch: None,
        }
    }
}

} // verus!
