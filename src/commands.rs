//! What the desktop shell asks of the library: the application's
//! description and the meaning of each menu item.

use vstd::prelude::*;

verus! {

/// The application's name, version, description and author.
#[derive(Debug, Clone)]
pub struct AppInfo {
    pub name: String,
    pub version: String,
    pub description: String,
    pub author: String,
}

pub fn get_app_info() -> (r: AppInfo)
    ensures
        r.name@ == "ExecuteJS"@,
        r.version@ == "0.1.0"@,
        r.description@ == "JavaScript 코드를 실행하는 Tauri 애플리케이션"@,
        r.author@ == "ExecuteJS Team"@,
{
    AppInfo {
        name: String::from_str("ExecuteJS"),
        version: String::from_str("0.1.0"),
        description: String::from_str("JavaScript 코드를 실행하는 Tauri 애플리케이션"),
        author: String::from_str("ExecuteJS Team"),
    }
}

/// What a menu item asks for.
#[derive(Debug, Clone, Copy, PartialEq, Eq, Structural)]
pub enum MenuCommand {
    About,
    Settings,
    Quit,
    NewTab,
    CloseTab,
    Reload,
    ToggleDevtools,
    Unknown,
}

/// The command of each menu item id.
pub open spec fn menu_command_of(id: Seq<char>) -> MenuCommand {
    if id == "about"@ {
        MenuCommand::About
    } else if id == "settings"@ {
        MenuCommand::Settings
    } else if id == "quit"@ {
        MenuCommand::Quit
    } else if id == "new_tab"@ {
        MenuCommand::NewTab
    } else if id == "close_tab"@ {
        MenuCommand::CloseTab
    } else if id == "reload"@ {
        MenuCommand::Reload
    } else if id == "toggle_devtools"@ {
        MenuCommand::ToggleDevtools
    } else {
        MenuCommand::Unknown
    }
}

/// The command that a menu event with this item id asks for.
pub fn menu_command(id: &str) -> (r: MenuCommand)
    ensures
        r == menu_command_of(id@),
{
    let id = String::from_str(id);
    if id == String::from_str("about") {
        MenuCommand::About
    } else if id == String::from_str("settings") {
        MenuCommand::Settings
    } else if id == String::from_str("quit") {
        MenuCommand::Quit
    } else if id == String::from_str("new_tab") {
        MenuCommand::NewTab
    } else if id == String::from_str("close_tab") {
        MenuCommand::CloseTab
    } else if id == String::from_str("reload") {
        MenuCommand::Reload
    } else if id == String::from_str("toggle_devtools") {
        MenuCommand::ToggleDevtools
    } else {
        MenuCommand::Unknown
    }
}

} // verus!
