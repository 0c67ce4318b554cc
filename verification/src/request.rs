//! What a build is asked to do, and the toolchain it runs in.

use crate::text::{contains, includes};
use vstd::prelude::*;

verus! {

/// What the caller asks for.
#[derive(Clone, Debug, PartialEq, Eq)]
pub struct BuildRequest {
    /// The folder that holds the native sources.
    pub source_folder: String,
    /// Whether the entry-point bridge is generated.
    pub emit_bridge: bool,
    /// The name of the application class. It is read only where the bridge
    /// is generated; the caller then has to supply it, and a missing name is
    /// taken as the empty name.
    pub app_name: Option<String>,
}

/// A request as contracts see it.
pub struct BuildRequestView {
    pub source_folder: Seq<char>,
    pub emit_bridge: bool,
    pub app_name: Option<Seq<char>>,
}

impl View for BuildRequest {
    type V = BuildRequestView;

    open spec fn view(&self) -> BuildRequestView {
        BuildRequestView {
            source_folder: self.source_folder@,
            emit_bridge: self.emit_bridge,
            app_name: self.app_name.deep_view(),
        }
    }
}

/// The name for which the bridge is generated, if one is.
pub open spec fn bridge_name(request: BuildRequestView) -> Option<Seq<char>> {
    if request.emit_bridge {
        match request.app_name {
            Some(name) => Some(name),
            None => Some(Seq::empty()),
        }
    } else {
        None
    }
}

impl BuildRequest {
    /// The request to build a folder, with the name of its application.
    pub fn new(source_folder: &str, emit_bridge: bool, app_name: &str) -> (request: BuildRequest)
        ensures
            request@ == (BuildRequestView {
                source_folder: source_folder@,
                emit_bridge,
                app_name: Some(app_name@),
            }),
    {
        BuildRequest {
            source_folder: String::from_str(source_folder),
            emit_bridge,
            app_name: Some(String::from_str(app_name)),
        }
    }

    /// The name for which the bridge is generated, if one is.
    pub fn bridge(&self) -> (name: Option<String>)
        ensures
            name.deep_view() == bridge_name(self@),
    {
        if self.emit_bridge {
            match &self.app_name {
                Some(name) => Some(name.clone()),
                None => Some(String::new()),
            }
        } else {
            None
        }
    }
}

/// The toolchain of one build, as the environment describes it.
#[derive(Clone, Debug, PartialEq, Eq)]
pub struct ToolchainContext {
    pub target_triple: String,
    pub output_dir: String,
    pub toolkit_config_command: String,
    pub toolkit_install_dir: Option<String>,
}

/// A context as contracts see it.
pub struct ToolchainContextView {
    pub target_triple: Seq<char>,
    pub output_dir: Seq<char>,
    pub toolkit_config_command: Seq<char>,
    pub toolkit_install_dir: Option<Seq<char>>,
}

impl View for ToolchainContext {
    type V = ToolchainContextView;

    open spec fn view(&self) -> ToolchainContextView {
        ToolchainContextView {
            target_triple: self.target_triple@,
            output_dir: self.output_dir@,
            toolkit_config_command: self.toolkit_config_command@,
            toolkit_install_dir: self.toolkit_install_dir.deep_view(),
        }
    }
}

/// The context that the values of the environment give: the configuration
/// command is `wx-config` unless one is set, and an installation directory
/// that is set to the empty text is not set.
pub open spec fn context_from(
    target_triple: Seq<char>,
    output_dir: Seq<char>,
    config_command: Option<Seq<char>>,
    install_dir: Option<Seq<char>>,
) -> ToolchainContextView {
    ToolchainContextView {
        target_triple,
        output_dir,
        toolkit_config_command: match config_command {
            Some(command) => command,
            None => "wx-config"@,
        },
        toolkit_install_dir: match install_dir {
            Some(dir) => if dir.len() > 0 {
                Some(dir)
            } else {
                None
            },
            None => None,
        },
    }
}

/// The target uses the MSVC toolchain.
pub open spec fn targets_msvc(context: ToolchainContextView) -> bool {
    contains(context.target_triple, "msvc"@)
}

/// The target is the Apple desktop.
pub open spec fn targets_apple_desktop(context: ToolchainContextView) -> bool {
    contains(context.target_triple, "darwin"@)
}

/// The installation directory from which the toolkit is taken by hand: one
/// is configured, and the target uses the MSVC toolchain.
pub open spec fn manual_directory(context: ToolchainContextView) -> Option<Seq<char>> {
    match context.toolkit_install_dir {
        Some(dir) => if dir.len() > 0 && targets_msvc(context) {
            Some(dir)
        } else {
            None
        },
        None => None,
    }
}

impl ToolchainContext {
    /// The context that the values of the environment give: the target, the
    /// output directory, and the configuration command and the installation
    /// directory where they are set.
    pub fn from_environment(
        target_triple: String,
        output_dir: String,
        config_command: Option<String>,
        install_dir: Option<String>,
    ) -> (context: ToolchainContext)
        ensures
            context@ == context_from(
                target_triple@,
                output_dir@,
                config_command.deep_view(),
                install_dir.deep_view(),
            ),
    {
        let toolkit_config_command = match config_command {
            Some(command) => command,
            None => String::from_str("wx-config"),
        };
        let toolkit_install_dir = match install_dir {
            Some(dir) => if dir.as_str().is_empty() {
                None
            } else {
                Some(dir)
            },
            None => None,
        };
        ToolchainContext { target_triple, output_dir, toolkit_config_command, toolkit_install_dir }
    }

    /// Whether the target uses the MSVC toolchain.
    pub fn targets_msvc(&self) -> (msvc: bool)
        ensures
            msvc == targets_msvc(self@),
    {
        includes(self.target_triple.as_str(), "msvc")
    }

    /// Whether the target is the Apple desktop.
    pub fn targets_apple_desktop(&self) -> (apple: bool)
        ensures
            apple == targets_apple_desktop(self@),
    {
        includes(self.target_triple.as_str(), "darwin")
    }

    /// The installation directory from which the toolkit is taken by hand.
    pub fn manual_directory(&self) -> (dir: Option<String>)
        ensures
            dir.deep_view() == manual_directory(self@),
    {
        match &self.toolkit_install_dir {
            Some(dir) => if !dir.as_str().is_empty() && self.targets_msvc() {
                Some(dir.clone())
            } else {
                None
            },
            None => None,
        }
    }
}

} // verus!
