//! Tray menu model: the commands a click can send, the menu layout built
//! from the daemon's state, its labels, and the table that routes menu ids
//! back to commands. The GUI itself lives outside the library.

use vstd::prelude::*;

use crate::browsers::Browser;
use crate::text::{
    decimal, lemma_decimal_has_no_dash, lemma_decimal_injective, push_decimal, push_signed_decimal,
    signed_decimal,
};

verus! {

/// Event emitted by the tray on a user interaction.
#[derive(Debug, Clone, PartialEq, Eq)]
pub enum TrayCommand {
    /// "Patch Now".
    PatchAll,
    /// A per-browser status row: patch that browser.
    PatchOne(String),
    /// "Update Widevine".
    UpdateWidevine,
    /// "Launch at Login" toggled; the flag is the desired state.
    ToggleLaunchAtLogin(bool),
    /// "Quit Neon".
    Quit,
    /// A streaming quick-launch; the empty URL asks for a custom one.
    StreamUrl(String),
    /// Bridge: pause the VM.
    BridgePause,
    /// Bridge: resume the VM.
    BridgeResume,
    /// Bridge: repair.
    BridgeRepair,
}

/// Mathematical value of a [`TrayCommand`].
pub enum CommandView {
    PatchAll,
    PatchOne(Seq<char>),
    UpdateWidevine,
    ToggleLaunchAtLogin(bool),
    Quit,
    StreamUrl(Seq<char>),
    BridgePause,
    BridgeResume,
    BridgeRepair,
}

impl View for TrayCommand {
    type V = CommandView;

    open spec fn view(&self) -> CommandView {
        match self {
            TrayCommand::PatchAll => CommandView::PatchAll,
            TrayCommand::PatchOne(b) => CommandView::PatchOne(b@),
            TrayCommand::UpdateWidevine => CommandView::UpdateWidevine,
            TrayCommand::ToggleLaunchAtLogin(on) => CommandView::ToggleLaunchAtLogin(*on),
            TrayCommand::Quit => CommandView::Quit,
            TrayCommand::StreamUrl(u) => CommandView::StreamUrl(u@),
            TrayCommand::BridgePause => CommandView::BridgePause,
            TrayCommand::BridgeResume => CommandView::BridgeResume,
            TrayCommand::BridgeRepair => CommandView::BridgeRepair,
        }
    }
}

impl TrayCommand {
    /// An equal copy of the command.
    pub fn duplicate(&self) -> (c: Self)
        ensures
            c == *self,
    {
        match self {
            TrayCommand::PatchAll => TrayCommand::PatchAll,
            TrayCommand::PatchOne(b) => TrayCommand::PatchOne(b.clone()),
            TrayCommand::UpdateWidevine => TrayCommand::UpdateWidevine,
            TrayCommand::ToggleLaunchAtLogin(on) => TrayCommand::ToggleLaunchAtLogin(*on),
            TrayCommand::Quit => TrayCommand::Quit,
            TrayCommand::StreamUrl(u) => TrayCommand::StreamUrl(u.clone()),
            TrayCommand::BridgePause => TrayCommand::BridgePause,
            TrayCommand::BridgeResume => TrayCommand::BridgeResume,
            TrayCommand::BridgeRepair => TrayCommand::BridgeRepair,
        }
    }
}

/// Pure-data description of one menu entry.
#[derive(Debug, PartialEq, Eq)]
pub enum MenuItemSpec {
    /// Per-browser status row.
    BrowserStatus {
        /// Display name of the browser.
        browser_name: String,
        /// Whether the browser is patched.
        patched: bool,
    },
    /// Item that dispatches `command` when clicked.
    Action {
        /// Label.
        label: String,
        /// Command sent on click.
        command: TrayCommand,
    },
    /// Checkable item.
    Toggle {
        /// Label.
        label: String,
        /// Current checked state.
        checked: bool,
        /// Command sent when toggled.
        command_when_toggled: TrayCommand,
    },
    /// Read-only text.
    Label {
        /// Display text.
        text: String,
    },
    /// Labeled parent of nested entries.
    Submenu {
        /// Label.
        label: String,
        /// Child entries.
        items: Vec<MenuItemSpec>,
    },
    /// Visual separator.
    Separator,
}

/// Mathematical value of a [`MenuItemSpec`].
pub enum ItemView {
    BrowserStatus { browser_name: Seq<char>, patched: bool },
    Action { label: Seq<char>, command: CommandView },
    Toggle { label: Seq<char>, checked: bool, command_when_toggled: CommandView },
    Label { text: Seq<char> },
    Submenu { label: Seq<char>, items: Seq<ItemView> },
    Separator,
}

/// The value of a menu entry, children included.
pub open spec fn item_view(item: MenuItemSpec) -> ItemView
    decreases item,
{
    match item {
        MenuItemSpec::BrowserStatus { browser_name, patched } => ItemView::BrowserStatus {
            browser_name: browser_name@,
            patched,
        },
        MenuItemSpec::Action { label, command } => ItemView::Action {
            label: label@,
            command: command@,
        },
        MenuItemSpec::Toggle { label, checked, command_when_toggled } => ItemView::Toggle {
            label: label@,
            checked,
            command_when_toggled: command_when_toggled@,
        },
        MenuItemSpec::Label { text } => ItemView::Label { text: text@ },
        MenuItemSpec::Submenu { label, items } => ItemView::Submenu {
            label: label@,
            items: Seq::new(
                items@.len(),
                |k: int|
                    if 0 <= k < items@.len() {
                        item_view(items@[k])
                    } else {
                        ItemView::Separator
                    },
            ),
        },
        MenuItemSpec::Separator => ItemView::Separator,
    }
}

impl View for MenuItemSpec {
    type V = ItemView;

    open spec fn view(&self) -> ItemView {
        item_view(*self)
    }
}

impl Clone for MenuItemSpec {
    /// An equal copy of the entry, children included.
    fn clone(&self) -> (c: Self)
        ensures
            c@ == self@,
        decreases self,
    {
        match self {
            MenuItemSpec::BrowserStatus { browser_name, patched } => MenuItemSpec::BrowserStatus {
                browser_name: browser_name.clone(),
                patched: *patched,
            },
            MenuItemSpec::Action { label, command } => MenuItemSpec::Action {
                label: label.clone(),
                command: command.duplicate(),
            },
            MenuItemSpec::Toggle { label, checked, command_when_toggled } => MenuItemSpec::Toggle {
                label: label.clone(),
                checked: *checked,
                command_when_toggled: command_when_toggled.duplicate(),
            },
            MenuItemSpec::Label { text } => MenuItemSpec::Label { text: text.clone() },
            MenuItemSpec::Submenu { label, items } => {
                let mut copies: Vec<MenuItemSpec> = Vec::new();
                let mut i: usize = 0;
                while i < items.len()
                    invariant
                        self is Submenu,
                        (*self)->Submenu_items == *items,
                        i <= items.len(),
                        copies@.len() == i,
                        forall|k: int| 0 <= k < i ==> item_view(#[trigger] copies@[k]) == item_view(items@[k]),
                    decreases items.len() - i,
                {
                    proof {
                        let v = (*self)->Submenu_items;
                        assert(decreases_to!(*self => v));
                        assert(decreases_to!(v@ => v@[i as int]));
                    }
                    let c = items[i].clone();
                    copies.push(c);
                    i += 1;
                }
                let r = MenuItemSpec::Submenu { label: label.clone(), items: copies };
                proof {
                    let a = item_view(r)->Submenu_items;
                    let b = item_view(*self)->Submenu_items;
                    assert(a =~= b);
                }
                r
            },
            MenuItemSpec::Separator => MenuItemSpec::Separator,
        }
    }
}

/// The values of a sequence of menu entries.
pub open spec fn items_view(items: Seq<MenuItemSpec>) -> Seq<ItemView> {
    Seq::new(items.len(), |k: int| item_view(items[k]))
}

/// The user-visible label of an entry; separators have none.
pub open spec fn view_label(v: ItemView) -> Seq<char> {
    match v {
        ItemView::BrowserStatus { browser_name, patched } => if patched {
            "✓ "@ + browser_name + " Patched"@
        } else {
            "✗ "@ + browser_name + " Not Patched"@
        },
        ItemView::Action { label, .. } => label,
        ItemView::Toggle { label, .. } => label,
        ItemView::Submenu { label, .. } => label,
        ItemView::Label { text } => text,
        ItemView::Separator => Seq::empty(),
    }
}

impl MenuItemSpec {
    /// The user-visible label: `✓ <name> Patched` / `✗ <name> Not Patched`
    /// for status rows, the text of labels, nothing for separators, and the
    /// label of every other entry.
    pub fn label(&self) -> (l: String)
        ensures
            l@ == view_label(self@),
    {
        match self {
            MenuItemSpec::BrowserStatus { browser_name, patched } => {
                let mut l = if *patched {
                    "✓ ".to_owned()
                } else {
                    "✗ ".to_owned()
                };
                l.append(browser_name.as_str());
                if *patched {
                    l.append(" Patched");
                } else {
                    l.append(" Not Patched");
                }
                l
            },
            MenuItemSpec::Action { label, .. } => label.clone(),
            MenuItemSpec::Toggle { label, .. } => label.clone(),
            MenuItemSpec::Submenu { label, .. } => label.clone(),
            MenuItemSpec::Label { text } => text.clone(),
            MenuItemSpec::Separator => String::new(),
        }
    }

    /// `true` for a separator.
    pub fn is_separator(&self) -> (b: bool)
        ensures
            b == (self@ is Separator),
    {
        match self {
            MenuItemSpec::Separator => true,
            _ => false,
        }
    }

    /// `true` for entries that dispatch a command themselves when clicked:
    /// status rows (a patch of their browser), actions and toggles. A
    /// submenu's children do; the submenu itself and labels do not.
    pub fn is_actionable(&self) -> (b: bool)
        ensures
            b == (self@ is Action || self@ is Toggle || self@ is BrowserStatus),
    {
        match self {
            MenuItemSpec::BrowserStatus { .. } => true,
            MenuItemSpec::Action { .. } => true,
            MenuItemSpec::Toggle { .. } => true,
            _ => false,
        }
    }
}

/// Bridge state shown in the tray.
#[derive(Debug, Clone, Copy, PartialEq, Eq, Structural)]
pub struct BridgeMenuState {
    /// The bridge VM is provisioned.
    pub ready: bool,
    /// The VM is paused.
    pub paused: bool,
    /// Hours since the most recent snapshot.
    pub snapshot_age_hours: Option<u64>,
    /// Days left on the trial licence (negative: expired).
    pub eval_days_remaining: Option<i64>,
}

impl Default for BridgeMenuState {
    fn default() -> (s: Self)
        ensures
            s == (BridgeMenuState {
                ready: false,
                paused: false,
                snapshot_age_hours: None,
                eval_days_remaining: None,
            }),
    {
        BridgeMenuState { ready: false, paused: false, snapshot_age_hours: None, eval_days_remaining: None }
    }
}

/// Per-browser menu line state.
#[derive(Debug, Clone, PartialEq, Eq)]
pub struct BrowserMenuEntry {
    /// Display name.
    pub name: String,
    /// Patched or not.
    pub patched: bool,
}

impl BrowserMenuEntry {
    /// The menu entry of a browser with the given patch state.
    pub fn from_browser(browser: &Browser, patched: bool) -> (e: Self)
        ensures
            e.name@ == browser.name@,
            e.patched == patched,
    {
        BrowserMenuEntry { name: browser.name().to_owned(), patched }
    }
}

/// State the menu is built from. `bridge` is present when the
/// experimental bridge is enabled; its entries appear only then.
#[derive(Debug, Clone, PartialEq, Eq)]
pub struct MenuState {
    /// One entry per detected browser, in display order.
    pub browsers: Vec<BrowserMenuEntry>,
    /// Whether "Launch at Login" is enabled.
    pub launch_at_login: bool,
    /// Bridge state, when the bridge is enabled.
    pub bridge: Option<BridgeMenuState>,
}

impl Default for MenuState {
    fn default() -> (s: Self)
        ensures
            s.browsers@.len() == 0,
            !s.launch_at_login,
            s.bridge is None,
    {
        MenuState { browsers: Vec::new(), launch_at_login: false, bridge: None }
    }
}

/// Header of the bridge submenu.
pub open spec fn status_label(b: BridgeMenuState) -> Seq<char> {
    if !b.ready {
        "Status: Not provisioned"@
    } else if b.paused {
        "Status: Paused"@
    } else {
        "Status: Ready"@
    }
}

/// Trial indicator: days remaining, or how long ago it expired.
pub open spec fn eval_label(days: i64) -> Seq<char> {
    if days >= 0 {
        "Eval: "@ + decimal(days as nat) + " days remaining"@
    } else {
        "Eval: expired ("@ + signed_decimal(-days) + " days ago)"@
    }
}

/// Snapshot age: in hours under a day, else in whole days.
pub open spec fn snapshot_label(hours: u64) -> Seq<char> {
    if hours < 24 {
        "Snapshot: "@ + decimal(hours as nat) + "h old"@
    } else {
        "Snapshot: "@ + decimal((hours / 24) as nat) + "d old"@
    }
}

/// Renders the bridge submenu's "Status: ..." header.
pub fn bridge_status_label(bridge: &BridgeMenuState) -> (l: String)
    ensures
        l@ == status_label(*bridge),
{
    if !bridge.ready {
        "Status: Not provisioned".to_owned()
    } else if bridge.paused {
        "Status: Paused".to_owned()
    } else {
        "Status: Ready".to_owned()
    }
}

/// Renders the trial indicator: "Eval: N days remaining" or
/// "Eval: expired (N days ago)".
pub fn eval_days_label(days: i64) -> (l: String)
    requires
        days != i64::MIN,
    ensures
        l@ == eval_label(days),
{
    if days >= 0 {
        let mut l = "Eval: ".to_owned();
        push_decimal(&mut l, days as u64);
        l.append(" days remaining");
        l
    } else {
        let mut l = "Eval: expired (".to_owned();
        push_signed_decimal(&mut l, -days);
        l.append(" days ago)");
        l
    }
}

/// Renders the snapshot age: "Snapshot: Nh old" under a day, else
/// "Snapshot: Nd old".
pub fn snapshot_age_label(hours: u64) -> (l: String)
    ensures
        l@ == snapshot_label(hours),
{
    let mut l = "Snapshot: ".to_owned();
    if hours < 24 {
        push_decimal(&mut l, hours);
        l.append("h old");
    } else {
        push_decimal(&mut l, hours / 24);
        l.append("d old");
    }
    l
}

/// Children of the bridge submenu.
pub open spec fn bridge_submenu(b: BridgeMenuState) -> Seq<ItemView> {
    seq![
        ItemView::Label { text: status_label(b) },
        ItemView::Action { label: "Pause VM"@, command: CommandView::BridgePause },
        ItemView::Action { label: "Resume VM"@, command: CommandView::BridgeResume },
        ItemView::Action { label: "Repair"@, command: CommandView::BridgeRepair },
    ] + (match b.eval_days_remaining {
        Some(d) => seq![ItemView::Label { text: eval_label(d) }],
        None => Seq::empty(),
    }) + (match b.snapshot_age_hours {
        Some(h) => seq![ItemView::Label { text: snapshot_label(h) }],
        None => Seq::empty(),
    })
}

/// The bridge block: streaming quick-launches and the bridge submenu.
pub open spec fn bridge_block(b: BridgeMenuState) -> Seq<ItemView> {
    seq![
        ItemView::Separator,
        ItemView::Action {
            label: "Stream Netflix"@,
            command: CommandView::StreamUrl("https://netflix.com"@),
        },
        ItemView::Action {
            label: "Stream Disney+"@,
            command: CommandView::StreamUrl("https://disneyplus.com"@),
        },
        ItemView::Action {
            label: "Stream HBO Max"@,
            command: CommandView::StreamUrl("https://max.com"@),
        },
        ItemView::Action {
            label: "Stream… (custom URL)"@,
            command: CommandView::StreamUrl(Seq::empty()),
        },
        ItemView::Separator,
        ItemView::Submenu { label: "Bridge ▶"@, items: bridge_submenu(b) },
    ]
}

/// One status row per browser, in order.
pub open spec fn browser_rows(browsers: Seq<BrowserMenuEntry>) -> Seq<ItemView> {
    Seq::new(
        browsers.len(),
        |i: int| ItemView::BrowserStatus { browser_name: browsers[i].name@, patched: browsers[i].patched },
    )
}

/// The canonical menu: browser rows (and a separator when there are any),
/// "Patch Now", "Update Widevine", the bridge block when enabled, then the
/// "Launch at Login" toggle and "Quit Neon", separated.
pub open spec fn layout(state: MenuState) -> Seq<ItemView> {
    browser_rows(state.browsers@) + (if state.browsers@.len() > 0 {
        seq![ItemView::Separator]
    } else {
        Seq::empty()
    }) + seq![
        ItemView::Action { label: "Patch Now"@, command: CommandView::PatchAll },
        ItemView::Action { label: "Update Widevine"@, command: CommandView::UpdateWidevine },
    ] + (match state.bridge {
        Some(b) => bridge_block(b),
        None => Seq::empty(),
    }) + seq![
        ItemView::Separator,
        ItemView::Toggle {
            label: "Launch at Login"@,
            checked: state.launch_at_login,
            command_when_toggled: CommandView::ToggleLaunchAtLogin(!state.launch_at_login),
        },
        ItemView::Separator,
        ItemView::Action { label: "Quit Neon"@, command: CommandView::Quit },
    ]
}

/// The bridge's trial day count can be rendered (its negation fits).
pub open spec fn renderable_bridge(state: MenuState) -> bool {
    state.bridge matches Some(b) ==> b.eval_days_remaining != Some(i64::MIN)
}

fn action(label: &str, command: TrayCommand) -> (item: MenuItemSpec)
    ensures
        item@ == (ItemView::Action { label: label@, command: command@ }),
{
    MenuItemSpec::Action { label: label.to_owned(), command }
}

fn push_item(out: &mut Vec<MenuItemSpec>, item: MenuItemSpec)
    ensures
        items_view(final(out)@) == items_view(old(out)@).push(item@),
{
    out.push(item);
    assert(items_view(out@) =~= items_view(old(out)@).push(item@));
}

fn bridge_submenu_items(bridge: &BridgeMenuState) -> (sub: Vec<MenuItemSpec>)
    requires
        bridge.eval_days_remaining != Some(i64::MIN),
    ensures
        items_view(sub@) == bridge_submenu(*bridge),
{
    let mut sub: Vec<MenuItemSpec> = Vec::new();
    push_item(&mut sub, MenuItemSpec::Label { text: bridge_status_label(bridge) });
    push_item(&mut sub, action("Pause VM", TrayCommand::BridgePause));
    push_item(&mut sub, action("Resume VM", TrayCommand::BridgeResume));
    push_item(&mut sub, action("Repair", TrayCommand::BridgeRepair));
    if let Some(days) = bridge.eval_days_remaining {
        push_item(&mut sub, MenuItemSpec::Label { text: eval_days_label(days) });
    }
    if let Some(hours) = bridge.snapshot_age_hours {
        push_item(&mut sub, MenuItemSpec::Label { text: snapshot_age_label(hours) });
    }
    assert(items_view(sub@) =~= bridge_submenu(*bridge));
    sub
}

/// Appends the streaming quick-launches and the bridge submenu.
fn inject_bridge_items(out: &mut Vec<MenuItemSpec>, bridge: &BridgeMenuState)
    requires
        bridge.eval_days_remaining != Some(i64::MIN),
    ensures
        items_view(final(out)@) == items_view(old(out)@) + bridge_block(*bridge),
{
    push_item(out, MenuItemSpec::Separator);
    push_item(out, action("Stream Netflix", TrayCommand::StreamUrl("https://netflix.com".to_owned())));
    push_item(out, action("Stream Disney+", TrayCommand::StreamUrl("https://disneyplus.com".to_owned())));
    push_item(out, action("Stream HBO Max", TrayCommand::StreamUrl("https://max.com".to_owned())));
    push_item(out, action("Stream… (custom URL)", TrayCommand::StreamUrl(String::new())));
    push_item(out, MenuItemSpec::Separator);
    let sub = bridge_submenu_items(bridge);
    let ghost subv = sub@;
    let submenu = MenuItemSpec::Submenu { label: "Bridge ▶".to_owned(), items: sub };
    assert(submenu@ == (ItemView::Submenu { label: "Bridge ▶"@, items: items_view(subv) })) by {
        assert(items_view(subv) =~= match item_view(submenu) {
            ItemView::Submenu { items, .. } => items,
            _ => Seq::empty(),
        });
    }
    push_item(out, submenu);
    assert(items_view(out@) =~= items_view(old(out)@) + bridge_block(*bridge));
}

/// Builds the canonical menu layout from the supplied state.
pub fn menu_layout(state: &MenuState) -> (out: Vec<MenuItemSpec>)
    requires
        renderable_bridge(*state),
    ensures
        items_view(out@) == layout(*state),
{
    let mut out: Vec<MenuItemSpec> = Vec::new();
    let mut i: usize = 0;
    while i < state.browsers.len()
        invariant
            i <= state.browsers@.len(),
            items_view(out@) == browser_rows(state.browsers@.take(i as int)),
        decreases state.browsers@.len() - i,
    {
        let entry = &state.browsers[i];
        push_item(
            &mut out,
            MenuItemSpec::BrowserStatus { browser_name: entry.name.clone(), patched: entry.patched },
        );
        assert(browser_rows(state.browsers@.take(i + 1)) =~= browser_rows(
            state.browsers@.take(i as int),
        ).push(items_view(out@).last()));
        i += 1;
    }
    assert(state.browsers@.take(state.browsers@.len() as int) =~= state.browsers@);
    if state.browsers.len() > 0 {
        push_item(&mut out, MenuItemSpec::Separator);
    }
    push_item(&mut out, action("Patch Now", TrayCommand::PatchAll));
    push_item(&mut out, action("Update Widevine", TrayCommand::UpdateWidevine));
    if let Some(bridge) = &state.bridge {
        inject_bridge_items(&mut out, bridge);
    }
    push_item(&mut out, MenuItemSpec::Separator);
    push_item(
        &mut out,
        MenuItemSpec::Toggle {
            label: "Launch at Login".to_owned(),
            checked: state.launch_at_login,
            command_when_toggled: TrayCommand::ToggleLaunchAtLogin(!state.launch_at_login),
        },
    );
    push_item(&mut out, MenuItemSpec::Separator);
    push_item(&mut out, action("Quit Neon", TrayCommand::Quit));
    assert(items_view(out@) =~= layout(*state));
    out
}

/// Id prefix of each kind of entry.
pub open spec fn item_prefix(v: ItemView) -> Seq<char> {
    match v {
        ItemView::BrowserStatus { .. } => "neon-browser-"@,
        ItemView::Action { .. } => "neon-action-"@,
        ItemView::Toggle { .. } => "neon-toggle-"@,
        ItemView::Submenu { .. } => "neon-submenu-"@,
        ItemView::Label { .. } => "neon-label-"@,
        ItemView::Separator => "neon-sep-"@,
    }
}

/// Stable id of a top-level entry at `index`: its kind, position and text.
pub open spec fn item_id(index: nat, v: ItemView) -> Seq<char> {
    match v {
        ItemView::Separator => item_prefix(v) + decimal(index),
        _ => item_prefix(v) + decimal(index) + "-"@ + view_label_text(v),
    }
}

/// The text an id carries: browser name, label or label text.
pub open spec fn view_label_text(v: ItemView) -> Seq<char> {
    match v {
        ItemView::BrowserStatus { browser_name, .. } => browser_name,
        ItemView::Action { label, .. } => label,
        ItemView::Toggle { label, .. } => label,
        ItemView::Submenu { label, .. } => label,
        ItemView::Label { text } => text,
        ItemView::Separator => Seq::empty(),
    }
}

/// Id of the child at `index` of the submenu whose id is `parent`.
pub open spec fn child_id(parent: Seq<char>, index: nat) -> Seq<char> {
    parent + "-child-"@ + decimal(index)
}

/// Id of the entry at `index`, top level or inside `parent`.
pub open spec fn entry_id(index: nat, v: ItemView, parent: Option<Seq<char>>) -> Seq<char> {
    match parent {
        Some(p) => child_id(p, index),
        None => item_id(index, v),
    }
}

/// Route-table entries contributed by one entry: status rows route to a
/// patch of their browser, actions and toggles to their command, submenus
/// through their children; labels and separators route nowhere.
pub open spec fn item_routes(index: nat, v: ItemView, parent: Option<Seq<char>>) -> Seq<
    (Seq<char>, CommandView),
>
    decreases v, 0nat,
{
    let id = entry_id(index, v, parent);
    match v {
        ItemView::Action { command, .. } => seq![(id, command)],
        ItemView::Toggle { command_when_toggled, .. } => seq![(id, command_when_toggled)],
        ItemView::BrowserStatus { browser_name, .. } => seq![
            (id, CommandView::PatchOne(browser_name)),
        ],
        ItemView::Submenu { items, .. } => entries_routes(items, items.len(), Some(id)),
        _ => Seq::empty(),
    }
}

/// Route-table entries of the first `n` entries of `items`.
pub open spec fn entries_routes(items: Seq<ItemView>, n: nat, parent: Option<Seq<char>>) -> Seq<
    (Seq<char>, CommandView),
>
    decreases items, n,
{
    if n == 0 || n > items.len() {
        Seq::empty()
    } else {
        entries_routes(items, (n - 1) as nat, parent) + item_routes(
            (n - 1) as nat,
            items[n - 1],
            parent,
        )
    }
}

/// The route table of a whole menu.
pub open spec fn menu_routes(layout: Seq<ItemView>) -> Seq<(Seq<char>, CommandView)> {
    entries_routes(layout, layout.len(), None)
}

/// Value of a route table.
pub open spec fn routes_view(r: Seq<(String, TrayCommand)>) -> Seq<(Seq<char>, CommandView)> {
    Seq::new(r.len(), |i: int| (r[i].0@, r[i].1@))
}

fn push_route(routes: &mut Vec<(String, TrayCommand)>, id: String, command: TrayCommand)
    ensures
        routes_view(final(routes)@) == routes_view(old(routes)@).push((id@, command@)),
{
    routes.push((id, command));
    assert(routes_view(routes@) =~= routes_view(old(routes)@).push((id@, command@)));
}

/// Stable id of the menu entry at `index`: kind, position and text, e.g.
/// `neon-action-3-Patch Now`.
pub fn menu_item_id(index: usize, item: &MenuItemSpec) -> (id: String)
    ensures
        id@ == item_id(index as nat, item@),
{
    let mut id = match item {
        MenuItemSpec::BrowserStatus { .. } => "neon-browser-".to_owned(),
        MenuItemSpec::Action { .. } => "neon-action-".to_owned(),
        MenuItemSpec::Toggle { .. } => "neon-toggle-".to_owned(),
        MenuItemSpec::Submenu { .. } => "neon-submenu-".to_owned(),
        MenuItemSpec::Label { .. } => "neon-label-".to_owned(),
        MenuItemSpec::Separator => "neon-sep-".to_owned(),
    };
    push_decimal(&mut id, index as u64);
    match item {
        MenuItemSpec::BrowserStatus { browser_name, .. } => {
            id.append("-");
            id.append(browser_name.as_str());
        },
        MenuItemSpec::Action { label, .. } => {
            id.append("-");
            id.append(label.as_str());
        },
        MenuItemSpec::Toggle { label, .. } => {
            id.append("-");
            id.append(label.as_str());
        },
        MenuItemSpec::Submenu { label, .. } => {
            id.append("-");
            id.append(label.as_str());
        },
        MenuItemSpec::Label { text } => {
            id.append("-");
            id.append(text.as_str());
        },
        MenuItemSpec::Separator => {},
    }
    id
}

/// Id of the child at `index` of the submenu whose id is `parent`:
/// `<parent>-child-<index>`.
pub fn child_item_id(parent: &str, index: usize) -> (id: String)
    ensures
        id@ == child_id(parent@, index as nat),
{
    let mut id = parent.to_owned();
    id.append("-child-");
    push_decimal(&mut id, index as u64);
    id
}

/// One row of the rendered tray menu: a plain item, a checkable item, or a
/// separator. A submenu is rendered as a disabled header followed by its
/// children, indented.
#[derive(Debug, Clone, PartialEq, Eq)]
pub enum GuiEntry {
    /// A plain item.
    Item {
        /// Menu id.
        id: String,
        /// Displayed text.
        text: String,
        /// Whether it can be clicked.
        enabled: bool,
    },
    /// A checkable item.
    Check {
        /// Menu id.
        id: String,
        /// Displayed text.
        text: String,
        /// Whether it can be clicked.
        enabled: bool,
        /// Whether it shows a check mark.
        checked: bool,
    },
    /// A separator.
    Separator,
}

/// Mathematical value of a [`GuiEntry`].
pub enum GuiView {
    Item { id: Seq<char>, text: Seq<char>, enabled: bool },
    Check { id: Seq<char>, text: Seq<char>, enabled: bool, checked: bool },
    Separator,
}

impl View for GuiEntry {
    type V = GuiView;

    open spec fn view(&self) -> GuiView {
        match self {
            GuiEntry::Item { id, text, enabled } => GuiView::Item { id: id@, text: text@, enabled: *enabled },
            GuiEntry::Check { id, text, enabled, checked } => GuiView::Check {
                id: id@,
                text: text@,
                enabled: *enabled,
                checked: *checked,
            },
            GuiEntry::Separator => GuiView::Separator,
        }
    }
}

/// The values of a sequence of GUI rows.
pub open spec fn rows_view(rows: Seq<GuiEntry>) -> Seq<GuiView> {
    Seq::new(rows.len(), |k: int| rows[k]@)
}

/// The indent in front of a submenu child's text.
pub open spec fn child_indent() -> Seq<char> {
    "    "@
}

/// The row of a submenu child with id `id`: actions and toggles are
/// clickable, labels are shown greyed out, anything else is not shown.
pub open spec fn child_row(id: Seq<char>, v: ItemView) -> Seq<GuiView> {
    let text = child_indent() + view_label(v);
    match v {
        ItemView::Action { .. } => seq![GuiView::Item { id, text, enabled: true }],
        ItemView::Toggle { checked, .. } => seq![GuiView::Check { id, text, enabled: true, checked }],
        ItemView::Label { .. } => seq![GuiView::Item { id, text, enabled: false }],
        _ => Seq::empty(),
    }
}

/// The rows of the first `n` children of the submenu whose id is `parent`.
pub open spec fn child_rows(parent: Seq<char>, items: Seq<ItemView>, n: nat) -> Seq<GuiView>
    decreases n,
{
    if n == 0 || n > items.len() {
        Seq::empty()
    } else {
        child_rows(parent, items, (n - 1) as nat) + child_row(child_id(parent, (n - 1) as nat), items[n - 1])
    }
}

/// The rows of the top-level entry at `index`: status rows and actions are
/// clickable items, toggles clickable check items, a submenu a disabled
/// header with its children after it, a label a disabled item.
pub open spec fn item_rows(index: nat, v: ItemView) -> Seq<GuiView> {
    let id = item_id(index, v);
    let text = view_label(v);
    match v {
        ItemView::BrowserStatus { .. } => seq![GuiView::Item { id, text, enabled: true }],
        ItemView::Action { .. } => seq![GuiView::Item { id, text, enabled: true }],
        ItemView::Toggle { checked, .. } => seq![GuiView::Check { id, text, enabled: true, checked }],
        ItemView::Submenu { items, .. } => seq![GuiView::Item { id, text, enabled: false }]
            + child_rows(id, items, items.len()),
        ItemView::Label { .. } => seq![GuiView::Item { id, text, enabled: false }],
        ItemView::Separator => seq![GuiView::Separator],
    }
}

/// The rows of the first `n` entries of a menu.
pub open spec fn menu_rows(layout: Seq<ItemView>, n: nat) -> Seq<GuiView>
    decreases n,
{
    if n == 0 || n > layout.len() {
        Seq::empty()
    } else {
        menu_rows(layout, (n - 1) as nat) + item_rows((n - 1) as nat, layout[n - 1])
    }
}

fn push_row(out: &mut Vec<GuiEntry>, row: GuiEntry)
    ensures
        rows_view(final(out)@) == rows_view(old(out)@).push(row@),
{
    out.push(row);
    assert(rows_view(out@) =~= rows_view(old(out)@).push(row@));
}

fn push_item_rows(out: &mut Vec<GuiEntry>, idx: usize, item: &MenuItemSpec)
    ensures
        rows_view(final(out)@) == rows_view(old(out)@) + item_rows(idx as nat, item@),
{
    let id = menu_item_id(idx, item);
    match item {
        MenuItemSpec::BrowserStatus { .. } | MenuItemSpec::Action { .. } => {
            push_row(out, GuiEntry::Item { id, text: item.label(), enabled: true });
        },
        MenuItemSpec::Toggle { checked, .. } => {
            push_row(out, GuiEntry::Check { id, text: item.label(), enabled: true, checked: *checked });
        },
        MenuItemSpec::Label { .. } => {
            push_row(out, GuiEntry::Item { id, text: item.label(), enabled: false });
        },
        MenuItemSpec::Separator => {
            push_row(out, GuiEntry::Separator);
        },
        MenuItemSpec::Submenu { label, items } => {
            let ghost start = rows_view(old(out)@);
            let ghost itemsv = match item@ {
                ItemView::Submenu { items, .. } => items,
                _ => Seq::empty(),
            };
            push_row(out, GuiEntry::Item { id: id.clone(), text: label.clone(), enabled: false });
            let ghost head = rows_view(out@);
            let mut k: usize = 0;
            while k < items.len()
                invariant
                    k <= items@.len(),
                    *item == (MenuItemSpec::Submenu { label: *label, items: *items }),
                    itemsv.len() == items@.len(),
                    forall|j: int| 0 <= j < items@.len() ==> itemsv[j] == item_view(#[trigger] items@[j]),
                    rows_view(out@) == head + child_rows(id@, itemsv, k as nat),
                decreases items@.len() - k,
            {
                let child = &items[k];
                let cid = child_item_id(id.as_str(), k);
                let mut text = "    ".to_owned();
                let l = child.label();
                text.append(l.as_str());
                match child {
                    MenuItemSpec::Action { .. } => {
                        push_row(out, GuiEntry::Item { id: cid, text, enabled: true });
                    },
                    MenuItemSpec::Toggle { checked, .. } => {
                        push_row(out, GuiEntry::Check { id: cid, text, enabled: true, checked: *checked });
                    },
                    MenuItemSpec::Label { .. } => {
                        push_row(out, GuiEntry::Item { id: cid, text, enabled: false });
                    },
                    _ => {},
                }
                assert(rows_view(out@) =~= head + child_rows(id@, itemsv, (k + 1) as nat));
                k += 1;
            }
            assert(rows_view(out@) =~= start + item_rows(idx as nat, item@));
        },
    }
}

/// The rows that render `menu`, in order: each entry's rows as
/// [`item_rows`] gives them, with the ids of [`menu_item_id`] and
/// [`child_item_id`].
pub fn gui_entries(menu: &Vec<MenuItemSpec>) -> (rows: Vec<GuiEntry>)
    ensures
        rows_view(rows@) == menu_rows(items_view(menu@), menu@.len()),
{
    let mut rows: Vec<GuiEntry> = Vec::new();
    let ghost lv = items_view(menu@);
    let mut idx: usize = 0;
    while idx < menu.len()
        invariant
            idx <= menu@.len(),
            lv == items_view(menu@),
            rows_view(rows@) == menu_rows(lv, idx as nat),
        decreases menu@.len() - idx,
    {
        push_item_rows(&mut rows, idx, &menu[idx]);
        assert(rows_view(rows@) =~= menu_rows(lv, (idx + 1) as nat));
        idx += 1;
    }
    rows
}

/// Value of an optional parent id.
pub open spec fn parent_view(p: Option<&str>) -> Option<Seq<char>> {
    match p {
        Some(s) => Some(s@),
        None => None,
    }
}

/// Appends the routes of one entry (and, for a submenu, of its children,
/// whose ids derive from the submenu's id and their position).
pub fn route_item_into(
    routes: &mut Vec<(String, TrayCommand)>,
    idx: usize,
    item: &MenuItemSpec,
    parent_id: Option<&str>,
)
    ensures
        routes_view(final(routes)@) == routes_view(old(routes)@) + item_routes(
            idx as nat,
            item@,
            parent_view(parent_id),
        ),
    decreases item,
{
    let id = match parent_id {
        Some(p) => child_item_id(p, idx),
        None => menu_item_id(idx, item),
    };
    match item {
        MenuItemSpec::Action { command, .. } => {
            push_route(routes, id, command.duplicate());
        },
        MenuItemSpec::Toggle { command_when_toggled, .. } => {
            push_route(routes, id, command_when_toggled.duplicate());
        },
        MenuItemSpec::BrowserStatus { browser_name, .. } => {
            push_route(routes, id, TrayCommand::PatchOne(browser_name.clone()));
        },
        MenuItemSpec::Submenu { label, items } => {
            let ghost start = routes_view(routes@);
            let ghost itemsv = match item@ {
                ItemView::Submenu { items, .. } => items,
                _ => Seq::empty(),
            };
            let mut child_idx: usize = 0;
            while child_idx < items.len()
                invariant
                    child_idx <= items@.len(),
                    *item == (MenuItemSpec::Submenu { label: *label, items: *items }),
                    itemsv.len() == items@.len(),
                    forall|k: int| 0 <= k < items@.len() ==> itemsv[k] == item_view(#[trigger] items@[k]),
                    routes_view(routes@) == start + entries_routes(
                        itemsv,
                        child_idx as nat,
                        Some(id@),
                    ),
                decreases items@.len() - child_idx,
            {
                proof {
                    assert(decreases_to!(*item => (*item)->items));
                    assert((*item)->items == *items);
                    assert(decreases_to!(*items => items@));
                    assert(decreases_to!(items@ => items@[child_idx as int]));
                }
                route_item_into(routes, child_idx, &items[child_idx], Some(id.as_str()));
                assert(routes_view(routes@) =~= start + entries_routes(
                    itemsv,
                    (child_idx + 1) as nat,
                    Some(id@),
                ));
                child_idx += 1;
            }
        },
        _ => {},
    }
}

/// Builds the table that routes each menu id to the command its click
/// sends, for the menu of `state`, in menu order.
pub fn build_routes(state: &MenuState) -> (routes: Vec<(String, TrayCommand)>)
    requires
        renderable_bridge(*state),
    ensures
        routes_view(routes@) == menu_routes(layout(*state)),
{
    let mut routes: Vec<(String, TrayCommand)> = Vec::new();
    let menu = menu_layout(state);
    let ghost lv = items_view(menu@);
    let mut idx: usize = 0;
    while idx < menu.len()
        invariant
            idx <= menu@.len(),
            lv == items_view(menu@),
            routes_view(routes@) == entries_routes(lv, idx as nat, None),
        decreases menu@.len() - idx,
    {
        route_item_into(&mut routes, idx, &menu[idx], None);
        assert(routes_view(routes@) =~= entries_routes(lv, (idx + 1) as nat, None));
        idx += 1;
    }
    assert(routes_view(routes@) =~= entries_routes(lv, lv.len(), None));
    routes
}

/// `s` begins with `p`.
pub open spec fn starts_with(s: Seq<char>, p: Seq<char>) -> bool {
    p.len() <= s.len() && forall|k: int| 0 <= k < p.len() ==> #[trigger] s[k] == p[k]
}

/// The part of an entry's id fixed by its kind and position.
pub open spec fn key_head(v: ItemView, i: nat) -> Seq<char> {
    item_prefix(v) + decimal(i) + "-"@
}

/// Entries whose id carries a text after the position (all but separators).
pub open spec fn labelled(v: ItemView) -> bool {
    !(v is Separator)
}

/// Entries that contribute routes.
pub open spec fn routable(v: ItemView) -> bool {
    v is BrowserStatus || v is Action || v is Toggle || v is Submenu
}

/// A submenu holds no further submenus.
pub open spec fn flat(v: ItemView) -> bool {
    v matches ItemView::Submenu { items, .. } ==> forall|k: int|
        0 <= k < items.len() ==> !(#[trigger] items[k] is Submenu)
}

/// No id occurs twice in a route table.
pub open spec fn unique_keys(r: Seq<(Seq<char>, CommandView)>) -> bool {
    forall|a: int, b: int| 0 <= a < b < r.len() ==> r[a].0 != r[b].0
}

proof fn lemma_item_id_starts_with_head(i: nat, v: ItemView)
    requires
        labelled(v),
    ensures
        starts_with(item_id(i, v), key_head(v, i)),
{
}

/// Two id heads of labelled entries at different positions, or of
/// different kinds, disagree at some position within both.
proof fn lemma_heads_conflict(v1: ItemView, i: nat, v2: ItemView, j: nat) -> (m: int)
    requires
        labelled(v1),
        labelled(v2),
        i != j || item_prefix(v1) != item_prefix(v2),
    ensures
        0 <= m < key_head(v1, i).len(),
        m < key_head(v2, j).len(),
        key_head(v1, i)[m] != key_head(v2, j)[m],
{
    reveal_strlit("neon-browser-");
    reveal_strlit("neon-action-");
    reveal_strlit("neon-toggle-");
    reveal_strlit("neon-submenu-");
    reveal_strlit("neon-label-");
    reveal_strlit("-");
    let h1 = key_head(v1, i);
    let h2 = key_head(v2, j);
    let p1 = item_prefix(v1);
    let p2 = item_prefix(v2);
    lemma_decimal_has_no_dash(i);
    lemma_decimal_has_no_dash(j);
    if p1 != p2 {
        assert(p1[5] != p2[5]);
        assert(h1[5] == p1[5]);
        assert(h2[5] == p2[5]);
        5
    } else {
        let d1 = decimal(i);
        let d2 = decimal(j);
        lemma_decimal_injective(i, j);
        let base = p1.len() as int;
        if d1.len() == d2.len() {
            assert(!(d1 =~= d2));
            let k = choose|k: int| 0 <= k < d1.len() && d1[k] != d2[k];
            assert(h1[base + k] == d1[k]);
            assert(h2[base + k] == d2[k]);
            base + k
        } else if d1.len() < d2.len() {
            assert(h1[base + d1.len()] == '-');
            assert(h2[base + d1.len()] == d2[d1.len() as int]);
            base + d1.len()
        } else {
            assert(h2[base + d2.len()] == '-');
            assert(h1[base + d2.len()] == d1[d2.len() as int]);
            base + d2.len()
        }
    }
}

/// Children at different positions of one submenu get different ids.
proof fn lemma_child_ids_distinct(p: Seq<char>, c1: nat, c2: nat)
    requires
        c1 != c2,
    ensures
        child_id(p, c1) != child_id(p, c2),
{
    let q = p + "-child-"@;
    lemma_decimal_injective(c1, c2);
    assert(child_id(p, c1).skip(q.len() as int) =~= decimal(c1));
    assert(child_id(p, c2).skip(q.len() as int) =~= decimal(c2));
}

/// The routes of the first `n` children of a submenu without nested
/// submenus: ids unique, all under the parent id, none equal to the id of a
/// later child.
proof fn lemma_children_routes(items: Seq<ItemView>, n: nat, p: Seq<char>)
    requires
        n <= items.len(),
        forall|k: int| 0 <= k < items.len() ==> !(#[trigger] items[k] is Submenu),
    ensures
        unique_keys(entries_routes(items, n, Some(p))),
        forall|t: int|
            0 <= t < entries_routes(items, n, Some(p)).len() ==> starts_with(
                #[trigger] entries_routes(items, n, Some(p))[t].0,
                p,
            ),
        forall|t: int, c: nat|
            #![trigger entries_routes(items, n, Some(p))[t], child_id(p, c)]
            0 <= t < entries_routes(items, n, Some(p)).len() && n <= c < items.len() ==> (
            entries_routes(items, n, Some(p))[t]).0 != child_id(p, c),
    decreases n,
{
    if n > 0 {
        let k = (n - 1) as nat;
        lemma_children_routes(items, k, p);
        let before = entries_routes(items, k, Some(p));
        let added = item_routes(k, items[k as int], Some(p));
        let all = entries_routes(items, n, Some(p));
        assert(all == before + added);
        assert(added.len() <= 1);
        if added.len() == 1 {
            assert(added[0].0 == child_id(p, k));
            assert forall|c: nat| n <= c < items.len() implies child_id(p, k) != child_id(p, c) by {
                lemma_child_ids_distinct(p, k, c);
            }
            assert(starts_with(child_id(p, k), p));
        }
        assert forall|a: int, b: int| 0 <= a < b < all.len() implies all[a].0 != all[b].0 by {
            if b >= before.len() {
                assert(all[b] == added[0]);
                assert(all[a] == before[a]);
            }
        }
        assert forall|t: int| 0 <= t < all.len() implies starts_with(#[trigger] all[t].0, p) by {
            if t >= before.len() {
                assert(all[t] == added[0]);
            } else {
                assert(all[t] == before[t]);
            }
        }
        assert forall|t: int, c: nat|
            #![trigger all[t], child_id(p, c)]
            0 <= t < all.len() && n <= c < items.len() implies all[t].0 != child_id(p, c) by {
            if t >= before.len() {
                assert(all[t] == added[0]);
            } else {
                assert(all[t] == before[t]);
            }
        }
    }
}

/// The routes of a routable top-level entry without nested submenus: ids
/// unique, all starting with the entry's id head.
proof fn lemma_item_routes_top(i: nat, v: ItemView)
    requires
        routable(v),
        flat(v),
    ensures
        unique_keys(item_routes(i, v, None)),
        forall|t: int|
            0 <= t < item_routes(i, v, None).len() ==> starts_with(
                #[trigger] item_routes(i, v, None)[t].0,
                key_head(v, i),
            ),
{
    lemma_item_id_starts_with_head(i, v);
    let id = item_id(i, v);
    let r = item_routes(i, v, None);
    if let ItemView::Submenu { items, .. } = v {
        lemma_children_routes(items, items.len(), id);
        assert(r == entries_routes(items, items.len(), Some(id)));
        assert forall|t: int| 0 <= t < r.len() implies starts_with(#[trigger] r[t].0, key_head(v, i)) by {
            assert(starts_with(r[t].0, id));
            assert forall|k: int| 0 <= k < key_head(v, i).len() implies #[trigger] r[t].0[k] == key_head(v, i)[k] by {
                assert(r[t].0[k] == id[k]);
            }
        }
    }
}

/// The routes of the first `n` entries of a menu without nested submenus:
/// ids unique, and none starts with the id head of a later routable entry.
proof fn lemma_entries_routes(l: Seq<ItemView>, n: nat)
    requires
        n <= l.len(),
        forall|k: int| 0 <= k < l.len() ==> flat(#[trigger] l[k]),
    ensures
        unique_keys(entries_routes(l, n, None)),
        forall|t: int, j: nat|
            #![trigger entries_routes(l, n, None)[t], key_head(l[j as int], j)]
            0 <= t < entries_routes(l, n, None).len() && n <= j < l.len() && routable(l[j as int])
                ==> !starts_with(entries_routes(l, n, None)[t].0, key_head(l[j as int], j)),
    decreases n,
{
    if n > 0 {
        let k = (n - 1) as nat;
        lemma_entries_routes(l, k);
        let before = entries_routes(l, k, None);
        let added = item_routes(k, l[k as int], None);
        let all = entries_routes(l, n, None);
        assert(all == before + added);
        let hk = key_head(l[k as int], k);
        if routable(l[k as int]) {
            lemma_item_routes_top(k, l[k as int]);
        } else {
            assert(added.len() == 0);
        }
        assert forall|a: int, b: int| 0 <= a < b < all.len() implies all[a].0 != all[b].0 by {
            if a >= before.len() {
                assert(all[a] == added[a - before.len()]);
                assert(all[b] == added[b - before.len()]);
            } else if b >= before.len() {
                assert(all[a] == before[a]);
                assert(all[b] == added[b - before.len()]);
                assert(starts_with(added[b - before.len()].0, hk));
                assert(!starts_with(before[a].0, hk));
            } else {
                assert(all[a] == before[a]);
                assert(all[b] == before[b]);
            }
        }
        assert forall|t: int, j: nat|
            #![trigger all[t], key_head(l[j as int], j)]
            0 <= t < all.len() && n <= j < l.len() && routable(l[j as int]) implies !starts_with(
            all[t].0,
            key_head(l[j as int], j),
        ) by {
            if t >= before.len() {
                assert(all[t] == added[t - before.len()]);
                let key = added[t - before.len()].0;
                assert(starts_with(key, hk));
                let m = lemma_heads_conflict(l[k as int], k, l[j as int], j);
                assert(key[m] == hk[m]);
            } else {
                assert(all[t] == before[t]);
            }
        }
    }
}

proof fn lemma_bridge_submenu_has_no_submenu(b: BridgeMenuState)
    ensures
        forall|k: int|
            0 <= k < bridge_submenu(b).len() ==> !(#[trigger] bridge_submenu(b)[k] is Submenu),
{
}

/// Every menu the daemon builds routes each id to exactly one command: no
/// two route-table entries share an id.
pub proof fn lemma_route_ids_unique(state: MenuState)
    ensures
        unique_keys(menu_routes(layout(state))),
{
    let l = layout(state);
    if let Some(b) = state.bridge {
        lemma_bridge_submenu_has_no_submenu(b);
    }
    assert forall|k: int| 0 <= k < l.len() implies flat(#[trigger] l[k]) by {
        if let Some(b) = state.bridge {
            lemma_bridge_submenu_has_no_submenu(b);
        }
    }
    lemma_entries_routes(l, l.len());
}

/// Entries at different positions of the same menu level get different ids.
pub proof fn lemma_item_ids_differ_by_position(i: nat, a: ItemView, j: nat, b: ItemView)
    requires
        i != j,
    ensures
        item_id(i, a) != item_id(j, b),
{
    reveal_strlit("neon-browser-");
    reveal_strlit("neon-action-");
    reveal_strlit("neon-toggle-");
    reveal_strlit("neon-submenu-");
    reveal_strlit("neon-label-");
    reveal_strlit("neon-sep-");
    lemma_decimal_has_no_dash(i);
    lemma_decimal_has_no_dash(j);
    if labelled(a) && labelled(b) {
        let m = lemma_heads_conflict(a, i, b, j);
        lemma_item_id_starts_with_head(i, a);
        lemma_item_id_starts_with_head(j, b);
        assert(item_id(i, a)[m] != item_id(j, b)[m]);
    } else if !labelled(a) && !labelled(b) {
        lemma_decimal_injective(i, j);
        assert(item_id(i, a).skip(9) =~= decimal(i));
        assert(item_id(j, b).skip(9) =~= decimal(j));
    } else if labelled(a) {
        if a is Submenu {
            assert(item_id(i, a)[6] != item_id(j, b)[6]);
        } else {
            assert(item_id(i, a)[5] != item_id(j, b)[5]);
        }
    } else {
        if b is Submenu {
            assert(item_id(i, a)[6] != item_id(j, b)[6]);
        } else {
            assert(item_id(i, a)[5] != item_id(j, b)[5]);
        }
    }
}

/// The menu always ends with "Quit Neon".
pub proof fn lemma_layout_ends_with_quit(state: MenuState)
    ensures
        layout(state).last() == (ItemView::Action { label: "Quit Neon"@, command: CommandView::Quit }),
{
}

/// The "Launch at Login" toggle shows the current setting and, when
/// clicked, asks for the opposite one.
pub proof fn lemma_toggle_requests_inverse(state: MenuState)
    ensures
        layout(state)[layout(state).len() - 3] == (ItemView::Toggle {
            label: "Launch at Login"@,
            checked: state.launch_at_login,
            command_when_toggled: CommandView::ToggleLaunchAtLogin(!state.launch_at_login),
        }),
{
}

/// The menu has one row per browser, a separator after them when there are
/// any, six fixed entries, and seven more when the bridge is enabled.
pub proof fn lemma_layout_len(state: MenuState)
    ensures
        layout(state).len() == state.browsers@.len() + (if state.browsers@.len() > 0 {
            1int
        } else {
            0
        }) + 6 + (if state.bridge is Some {
            7int
        } else {
            0
        }),
{
}

/// Routes of a longer prefix of a menu extend those of a shorter one.
proof fn lemma_entries_routes_prefix(items: Seq<ItemView>, n: nat, m: nat, parent: Option<Seq<char>>)
    requires
        n <= m <= items.len(),
    ensures
        entries_routes(items, n, parent).len() <= entries_routes(items, m, parent).len(),
        forall|k: int|
            0 <= k < entries_routes(items, n, parent).len() ==> #[trigger] entries_routes(items, m, parent)[k]
                == entries_routes(items, n, parent)[k],
    decreases m,
{
    if m > n {
        lemma_entries_routes_prefix(items, n, (m - 1) as nat, parent);
    }
}

/// The routes of the first `n` status rows of a menu that starts with them.
proof fn lemma_browser_routes(state: MenuState, n: nat)
    requires
        n <= state.browsers@.len(),
    ensures
        entries_routes(layout(state), n, None).len() == n,
        forall|i: int|
            0 <= i < n ==> #[trigger] entries_routes(layout(state), n, None)[i] == (
                "neon-browser-"@ + decimal(i as nat) + "-"@ + state.browsers@[i].name@,
                CommandView::PatchOne(state.browsers@[i].name@),
            ),
    decreases n,
{
    let l = layout(state);
    if n > 0 {
        lemma_browser_routes(state, (n - 1) as nat);
        let v = l[n - 1];
        assert(v == ItemView::BrowserStatus {
            browser_name: state.browsers@[n - 1].name@,
            patched: state.browsers@[n - 1].patched,
        });
        let r = item_routes((n - 1) as nat, v, None);
        assert(r =~= seq![
            (
                "neon-browser-"@ + decimal((n - 1) as nat) + "-"@ + state.browsers@[n - 1].name@,
                CommandView::PatchOne(state.browsers@[n - 1].name@),
            ),
        ]);
    }
}

/// Every browser's status row is routed, patched or not: the route table of
/// the menu begins with one route per browser, in order, the one of the
/// browser at position `i` under the id `neon-browser-<i>-<name>` sending a
/// patch of that browser.
pub proof fn lemma_every_browser_row_is_routed(state: MenuState)
    ensures
        state.browsers@.len() <= menu_routes(layout(state)).len(),
        forall|i: int|
            0 <= i < state.browsers@.len() ==> #[trigger] menu_routes(layout(state))[i] == (
                "neon-browser-"@ + decimal(i as nat) + "-"@ + state.browsers@[i].name@,
                CommandView::PatchOne(state.browsers@[i].name@),
            ),
{
    let l = layout(state);
    let b = state.browsers@.len();
    lemma_browser_routes(state, b);
    lemma_entries_routes_prefix(l, b, l.len(), None);
}

/// The id a GUI row carries; separators carry none.
pub open spec fn row_id(r: GuiView) -> Option<Seq<char>> {
    match r {
        GuiView::Item { id, .. } => Some(id),
        GuiView::Check { id, .. } => Some(id),
        GuiView::Separator => None,
    }
}

/// The text a GUI row shows; separators show none.
pub open spec fn row_text(r: GuiView) -> Seq<char> {
    match r {
        GuiView::Item { text, .. } => text,
        GuiView::Check { text, .. } => text,
        GuiView::Separator => Seq::empty(),
    }
}

/// Whether a GUI row can be clicked.
pub open spec fn row_enabled(r: GuiView) -> bool {
    match r {
        GuiView::Item { enabled, .. } => enabled,
        GuiView::Check { enabled, .. } => enabled,
        GuiView::Separator => false,
    }
}

/// The check mark of a checkable row; `None` for other rows.
pub open spec fn row_checked(r: GuiView) -> Option<bool> {
    match r {
        GuiView::Check { checked, .. } => Some(checked),
        _ => None,
    }
}

/// Rows of a longer prefix of a menu extend those of a shorter one.
proof fn lemma_menu_rows_prefix(layout: Seq<ItemView>, n: nat, m: nat)
    requires
        n <= m <= layout.len(),
    ensures
        menu_rows(layout, n).len() <= menu_rows(layout, m).len(),
        forall|k: int|
            0 <= k < menu_rows(layout, n).len() ==> #[trigger] menu_rows(layout, m)[k] == menu_rows(
                layout,
                n,
            )[k],
    decreases m,
{
    if m > n {
        lemma_menu_rows_prefix(layout, n, (m - 1) as nat);
    }
}

/// Every top-level entry but a separator is shown by a row that carries
/// the entry's id and its user-visible label (for a status row
/// `✓ <name> Patched` or `✗ <name> Not Patched`), that can be clicked
/// exactly when the entry is a status row, an action or a toggle, and that
/// shows a toggle's check mark.
pub proof fn lemma_entries_are_shown_with_their_labels(menu: Seq<ItemView>, i: int)
    requires
        0 <= i < menu.len(),
        !(menu[i] is Separator),
    ensures
        exists|k: int|
            0 <= k < menu_rows(menu, menu.len()).len() && {
                let r = #[trigger] menu_rows(menu, menu.len())[k];
                &&& row_id(r) == Some(item_id(i as nat, menu[i]))
                &&& row_text(r) == view_label(menu[i])
                &&& row_enabled(r) == (menu[i] is BrowserStatus || menu[i] is Action
                    || menu[i] is Toggle)
                &&& row_checked(r) == (match menu[i] {
                    ItemView::Toggle { checked, .. } => Some(checked),
                    _ => None,
                })
            },
{
    let k = menu_rows(menu, i as nat).len() as int;
    let rows_i1 = menu_rows(menu, (i + 1) as nat);
    assert(rows_i1 == menu_rows(menu, i as nat) + item_rows(i as nat, menu[i]));
    assert(item_rows(i as nat, menu[i]).len() > 0);
    assert(rows_i1[k] == item_rows(i as nat, menu[i])[0]);
    lemma_menu_rows_prefix(menu, (i + 1) as nat, menu.len());
    let r = menu_rows(menu, menu.len())[k];
    assert(r == item_rows(i as nat, menu[i])[0]);
}

/// An entry that, if it is an action labelled after a streaming service,
/// streams that service's site.
pub open spec fn streams_what_it_names(v: ItemView) -> bool {
    v matches ItemView::Action { label, command } ==> {
        &&& label == "Stream Netflix"@ ==> command == CommandView::StreamUrl("https://netflix.com"@)
        &&& label == "Stream Disney+"@ ==> command == CommandView::StreamUrl("https://disneyplus.com"@)
        &&& label == "Stream HBO Max"@ ==> command == CommandView::StreamUrl("https://max.com"@)
    }
}

proof fn lemma_all_stream_named_concat(a: Seq<ItemView>, b: Seq<ItemView>)
    requires
        forall|k: int| 0 <= k < a.len() ==> streams_what_it_names(#[trigger] a[k]),
        forall|k: int| 0 <= k < b.len() ==> streams_what_it_names(#[trigger] b[k]),
    ensures
        forall|k: int| 0 <= k < (a + b).len() ==> streams_what_it_names(#[trigger] (a + b)[k]),
{
    assert forall|k: int| 0 <= k < (a + b).len() implies streams_what_it_names(#[trigger] (a + b)[k]) by {
        if k < a.len() {
            assert((a + b)[k] == a[k]);
        } else {
            assert((a + b)[k] == b[k - a.len()]);
        }
    }
}

/// Each streaming quick-launch streams the service its label names:
/// wherever the menu holds an action labelled "Stream Netflix",
/// "Stream Disney+" or "Stream HBO Max", it streams https://netflix.com,
/// https://disneyplus.com or https://max.com respectively; and with the
/// bridge enabled the menu holds all three.
pub proof fn lemma_stream_actions_open_their_service(state: MenuState)
    ensures
        forall|k: int|
            0 <= k < layout(state).len() ==> streams_what_it_names(#[trigger] layout(state)[k]),
        state.bridge is Some ==> {
            &&& layout(state).contains(
                ItemView::Action {
                    label: "Stream Netflix"@,
                    command: CommandView::StreamUrl("https://netflix.com"@),
                },
            )
            &&& layout(state).contains(
                ItemView::Action {
                    label: "Stream Disney+"@,
                    command: CommandView::StreamUrl("https://disneyplus.com"@),
                },
            )
            &&& layout(state).contains(
                ItemView::Action {
                    label: "Stream HBO Max"@,
                    command: CommandView::StreamUrl("https://max.com"@),
                },
            )
        },
{
    reveal_strlit("Stream Netflix");
    reveal_strlit("Stream Disney+");
    reveal_strlit("Stream HBO Max");
    reveal_strlit("Stream… (custom URL)");
    reveal_strlit("Patch Now");
    reveal_strlit("Update Widevine");
    reveal_strlit("Quit Neon");
    let netflix = "Stream Netflix"@;
    let disney = "Stream Disney+"@;
    let hbo = "Stream HBO Max"@;
    assert("Patch Now"@[0] != netflix[0] && "Patch Now"@[0] != disney[0] && "Patch Now"@[0] != hbo[0]);
    assert("Update Widevine"@[0] != netflix[0] && "Update Widevine"@[0] != disney[0]
        && "Update Widevine"@[0] != hbo[0]);
    assert("Quit Neon"@[0] != netflix[0] && "Quit Neon"@[0] != disney[0] && "Quit Neon"@[0] != hbo[0]);
    assert("Stream… (custom URL)"@[6] != netflix[6] && "Stream… (custom URL)"@[6] != disney[6]
        && "Stream… (custom URL)"@[6] != hbo[6]);
    assert(netflix[7] != disney[7] && netflix[7] != hbo[7] && disney[7] != hbo[7]);
    let rows = browser_rows(state.browsers@);
    let sep: Seq<ItemView> = if state.browsers@.len() > 0 {
        seq![ItemView::Separator]
    } else {
        Seq::empty()
    };
    let fixed = seq![
        ItemView::Action { label: "Patch Now"@, command: CommandView::PatchAll },
        ItemView::Action { label: "Update Widevine"@, command: CommandView::UpdateWidevine },
    ];
    let block: Seq<ItemView> = match state.bridge {
        Some(b) => bridge_block(b),
        None => Seq::empty(),
    };
    let tail = seq![
        ItemView::Separator,
        ItemView::Toggle {
            label: "Launch at Login"@,
            checked: state.launch_at_login,
            command_when_toggled: CommandView::ToggleLaunchAtLogin(!state.launch_at_login),
        },
        ItemView::Separator,
        ItemView::Action { label: "Quit Neon"@, command: CommandView::Quit },
    ];
    assert(layout(state) == rows + sep + fixed + block + tail);
    assert(forall|k: int| 0 <= k < rows.len() ==> streams_what_it_names(#[trigger] rows[k]));
    assert(forall|k: int| 0 <= k < sep.len() ==> streams_what_it_names(#[trigger] sep[k]));
    assert(forall|k: int| 0 <= k < fixed.len() ==> streams_what_it_names(#[trigger] fixed[k]));
    assert(forall|k: int| 0 <= k < block.len() ==> streams_what_it_names(#[trigger] block[k]));
    assert(forall|k: int| 0 <= k < tail.len() ==> streams_what_it_names(#[trigger] tail[k]));
    lemma_all_stream_named_concat(rows, sep);
    lemma_all_stream_named_concat(rows + sep, fixed);
    lemma_all_stream_named_concat(rows + sep + fixed, block);
    lemma_all_stream_named_concat(rows + sep + fixed + block, tail);
    if state.bridge is Some {
        let base = (rows + sep + fixed).len() as int;
        let l = layout(state);
        assert(l[base + 1] == block[1]);
        assert(l[base + 2] == block[2]);
        assert(l[base + 3] == block[3]);
    }
}

/// A status row's label tells whether its browser is patched: it names
/// the browser, ends in " Patched" for a patched one and in " Not Patched"
/// for an unpatched one, so the two labels of one browser differ.
pub proof fn lemma_status_label_tells_patched(name: Seq<char>)
    ensures
        ({
            let yes = view_label(ItemView::BrowserStatus { browser_name: name, patched: true });
            let no = view_label(ItemView::BrowserStatus { browser_name: name, patched: false });
            &&& yes.subrange(2, 2 + name.len() as int) == name
            &&& no.subrange(2, 2 + name.len() as int) == name
            &&& yes.subrange(yes.len() - 8, yes.len() as int) == " Patched"@
            &&& no.subrange(no.len() - 12, no.len() as int) == " Not Patched"@
            &&& yes != no
        }),
{
    reveal_strlit("✓ ");
    reveal_strlit("✗ ");
    reveal_strlit(" Patched");
    reveal_strlit(" Not Patched");
    let yes = view_label(ItemView::BrowserStatus { browser_name: name, patched: true });
    let no = view_label(ItemView::BrowserStatus { browser_name: name, patched: false });
    assert(yes.subrange(2, 2 + name.len() as int) =~= name);
    assert(no.subrange(2, 2 + name.len() as int) =~= name);
    assert(yes.subrange(yes.len() - 8, yes.len() as int) =~= " Patched"@);
    assert(no.subrange(no.len() - 12, no.len() as int) =~= " Not Patched"@);
    assert(yes.len() != no.len());
}

} // verus!
