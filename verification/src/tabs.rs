//! The configuration editor's tab and list navigation: which tabs exist,
//! how many items each shows, and how selection wraps around. Rendering and
//! key handling live in the embedding program.

use vstd::prelude::*;

verus! {

/// The editor's tabs, in display order.
#[derive(Clone, Copy, Debug, PartialEq, Eq, Structural)]
pub enum ConfigTab {
    General,
    Notifications,
    Performance,
    Modules,
    Cache,
    Logging,
}

/// A tab's position in display order.
pub open spec fn spec_tab_index(t: ConfigTab) -> int {
    match t {
        ConfigTab::General => 0,
        ConfigTab::Notifications => 1,
        ConfigTab::Performance => 2,
        ConfigTab::Modules => 3,
        ConfigTab::Cache => 4,
        ConfigTab::Logging => 5,
    }
}

impl ConfigTab {
    /// Every tab, in display order.
    pub fn all() -> (r: Vec<ConfigTab>)
        ensures
            r@ == seq![
                ConfigTab::General,
                ConfigTab::Notifications,
                ConfigTab::Performance,
                ConfigTab::Modules,
                ConfigTab::Cache,
                ConfigTab::Logging,
            ],
    {
        let mut v: Vec<ConfigTab> = Vec::new();
        v.push(ConfigTab::General);
        v.push(ConfigTab::Notifications);
        v.push(ConfigTab::Performance);
        v.push(ConfigTab::Modules);
        v.push(ConfigTab::Cache);
        v.push(ConfigTab::Logging);
        proof {
            assert(v@ =~= seq![
                ConfigTab::General,
                ConfigTab::Notifications,
                ConfigTab::Performance,
                ConfigTab::Modules,
                ConfigTab::Cache,
                ConfigTab::Logging,
            ]);
        }
        v
    }

    /// The tab's display name.
    pub fn name(&self) -> (r: &'static str)
        ensures
            self is General ==> r@ == "General"@,
            self is Notifications ==> r@ == "Notifications"@,
            self is Performance ==> r@ == "Performance"@,
            self is Modules ==> r@ == "Modules"@,
            self is Cache ==> r@ == "Cache"@,
            self is Logging ==> r@ == "Logging"@,
    {
        match self {
            ConfigTab::General => "General",
            ConfigTab::Notifications => "Notifications",
            ConfigTab::Performance => "Performance",
            ConfigTab::Modules => "Modules",
            ConfigTab::Cache => "Cache",
            ConfigTab::Logging => "Logging",
        }
    }

    /// The tab's position in display order.
    pub fn index(&self) -> (r: usize)
        ensures
            r < 6,
            r == spec_tab_index(*self),
    {
        match self {
            ConfigTab::General => 0,
            ConfigTab::Notifications => 1,
            ConfigTab::Performance => 2,
            ConfigTab::Modules => 3,
            ConfigTab::Cache => 4,
            ConfigTab::Logging => 5,
        }
    }

    /// The next tab, wrapping from the last to the first.
    pub fn next(&self) -> (r: ConfigTab)
        ensures
            spec_tab_index(r) == (spec_tab_index(*self) + 1) % 6,
    {
        match self {
            ConfigTab::General => ConfigTab::Notifications,
            ConfigTab::Notifications => ConfigTab::Performance,
            ConfigTab::Performance => ConfigTab::Modules,
            ConfigTab::Modules => ConfigTab::Cache,
            ConfigTab::Cache => ConfigTab::Logging,
            ConfigTab::Logging => ConfigTab::General,
        }
    }

    /// The previous tab, wrapping from the first to the last.
    pub fn previous(&self) -> (r: ConfigTab)
        ensures
            (spec_tab_index(r) + 1) % 6 == spec_tab_index(*self),
    {
        match self {
            ConfigTab::General => ConfigTab::Logging,
            ConfigTab::Notifications => ConfigTab::General,
            ConfigTab::Performance => ConfigTab::Notifications,
            ConfigTab::Modules => ConfigTab::Performance,
            ConfigTab::Cache => ConfigTab::Modules,
            ConfigTab::Logging => ConfigTab::Cache,
        }
    }

    /// How many items the tab lists, given how many modules the registry
    /// holds.
    pub fn item_count(&self, module_count: usize) -> (r: usize)
        ensures
            self is General ==> r == 6,
            self is Notifications ==> r == 3,
            self is Performance ==> r == 2,
            self is Modules ==> r == module_count,
            self is Cache ==> r == 2,
            self is Logging ==> r == 3,
    {
        match self {
            ConfigTab::General => 6,
            ConfigTab::Notifications => 3,
            ConfigTab::Performance => 2,
            ConfigTab::Modules => module_count,
            ConfigTab::Cache => 2,
            ConfigTab::Logging => 3,
        }
    }
}

/// The item selected after a move down: selection wraps past the last item,
/// and an empty selection lands on the first item.
pub fn next_index(selected: Option<usize>, count: usize) -> (r: usize)
    requires
        count > 0,
        selected matches Some(i) ==> i < count,
    ensures
        r < count,
        match selected {
            Some(i) => r == if i + 1 == count {
                0int
            } else {
                i + 1
            },
            None => r == 0,
        },
{
    match selected {
        Some(i) => {
            if i + 1 == count {
                0
            } else {
                i + 1
            }
        },
        None => 0,
    }
}

/// The item selected after a move up: selection wraps past the first item,
/// and an empty selection lands on the first item.
pub fn previous_index(selected: Option<usize>, count: usize) -> (r: usize)
    requires
        count > 0,
        selected matches Some(i) ==> i < count,
    ensures
        r < count,
        match selected {
            Some(i) => if i == 0 {
                r == count - 1
            } else {
                r == i - 1
            },
            None => r == 0,
        },
{
    match selected {
        Some(i) => {
            if i == 0 {
                count - 1
            } else {
                i - 1
            }
        },
        None => 0,
    }
}

} // verus!
