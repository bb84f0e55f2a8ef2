//! The bot inventory.
//!
//! A bot is a name and a host, plus a login user, an attach command and a dashboard port
//! that have defaults. The inventory is the list of saved bots and the selected one. Each
//! operation reads the whole inventory, changes it and writes it back: the write is the
//! commit point.
//!
//! The defaults are applied when a bot is added or edited, so that a saved bot holds
//! concrete values and nothing downstream needs to know the defaults.

use crate::files;
use crate::files::FileRead;
use crate::text;
use vstd::prelude::*;

verus! {

/// Default attach command.
pub const DEFAULT_ATTACH_COMMAND: &'static str = "tmux attach -t hermes";

/// Default port of the dashboard on the bot.
pub const DEFAULT_DASHBOARD_PORT: u16 = 9119;

/// Default SSH login user.
pub const DEFAULT_SSH_USERNAME: &'static str = "hermes";

/// Name of the inventory file in the application's data directory.
pub const BOTS_FILE: &'static str = "bots.json";

/// A saved bot.
#[derive(Debug, PartialEq, Eq)]
pub struct Bot {
    /// Assigned when the bot is added; edits, removal and selection go by it.
    pub id: String,
    pub name: String,
    /// Host name or address.
    pub host: String,
    /// SSH login user, never blank.
    pub username: String,
    /// Command of the attach terminal, never blank.
    pub attach_command: String,
    /// Port of the dashboard on the bot, never zero.
    pub dashboard_port: u16,
}

/// The model of a [`Bot`].
#[verifier::ext_equal]
pub struct BotView {
    pub id: Seq<char>,
    pub name: Seq<char>,
    pub host: Seq<char>,
    pub username: Seq<char>,
    pub attach_command: Seq<char>,
    pub dashboard_port: u16,
}

impl View for Bot {
    type V = BotView;

    open spec fn view(&self) -> BotView {
        BotView {
            id: self.id@,
            name: self.name@,
            host: self.host@,
            username: self.username@,
            attach_command: self.attach_command@,
            dashboard_port: self.dashboard_port,
        }
    }
}

impl Clone for Bot {
    fn clone(&self) -> (r: Self)
        ensures
            r@ == self@,
    {
        Bot {
            id: self.id.clone(),
            name: self.name.clone(),
            host: self.host.clone(),
            username: self.username.clone(),
            attach_command: self.attach_command.clone(),
            dashboard_port: self.dashboard_port,
        }
    }
}

/// The login user of a bot that was saved before bots had one.
pub fn default_username() -> (r: String)
    ensures
        r@ == DEFAULT_SSH_USERNAME@,
{
    DEFAULT_SSH_USERNAME.to_owned()
}

/// What the operator enters for a bot. Only the name and the host are required.
#[derive(Debug)]
pub struct BotInput {
    pub name: String,
    pub host: String,
    /// Blank or absent for [`DEFAULT_SSH_USERNAME`].
    pub username: Option<String>,
    /// Blank or absent for [`DEFAULT_ATTACH_COMMAND`].
    pub attach_command: Option<String>,
    /// Zero or absent for [`DEFAULT_DASHBOARD_PORT`].
    pub dashboard_port: Option<u16>,
}

/// The model of a [`BotInput`].
#[verifier::ext_equal]
pub struct BotInputView {
    pub name: Seq<char>,
    pub host: Seq<char>,
    pub username: Option<Seq<char>>,
    pub attach_command: Option<Seq<char>>,
    pub dashboard_port: Option<u16>,
}

/// The characters of an optional text.
pub open spec fn optional_text(t: Option<String>) -> Option<Seq<char>> {
    match t {
        Some(t) => Some(t@),
        None => None,
    }
}

impl View for BotInput {
    type V = BotInputView;

    open spec fn view(&self) -> BotInputView {
        BotInputView {
            name: self.name@,
            host: self.host@,
            username: optional_text(self.username),
            attach_command: optional_text(self.attach_command),
            dashboard_port: self.dashboard_port,
        }
    }
}

fn cloned_text(t: &Option<String>) -> (r: Option<String>)
    ensures
        optional_text(r) == optional_text(*t),
{
    match t {
        Some(t) => Some(t.clone()),
        None => None,
    }
}

impl Clone for BotInput {
    fn clone(&self) -> (r: Self)
        ensures
            r@ == self@,
    {
        BotInput {
            name: self.name.clone(),
            host: self.host.clone(),
            username: cloned_text(&self.username),
            attach_command: cloned_text(&self.attach_command),
            dashboard_port: self.dashboard_port,
        }
    }
}

impl Default for BotInput {
    fn default() -> (r: Self)
        ensures
            r@ == (BotInputView {
                name: Seq::<char>::empty(),
                host: Seq::<char>::empty(),
                username: None,
                attach_command: None,
                dashboard_port: None,
            }),
    {
        BotInput {
            name: String::new(),
            host: String::new(),
            username: None,
            attach_command: None,
            dashboard_port: None,
        }
    }
}

/// The trimmed text, or `default` where that is blank or absent.
pub open spec fn text_or(t: Option<Seq<char>>, default: Seq<char>) -> Seq<char> {
    if t is Some && text::trimmed(t->0).len() > 0 {
        text::trimmed(t->0)
    } else {
        default
    }
}

/// The port, or the default one where that is zero or absent.
pub open spec fn port_or_default(port: Option<u16>) -> u16 {
    if port is Some && port->0 != 0 {
        port->0
    } else {
        DEFAULT_DASHBOARD_PORT
    }
}

/// What a required field of the input lacks, if one does.
pub open spec fn input_fault(input: BotInputView) -> Option<Seq<char>> {
    if text::trimmed(input.name).len() == 0 {
        Some("name is required"@)
    } else if text::trimmed(input.host).len() == 0 {
        Some("host/IP is required"@)
    } else {
        None
    }
}

/// The bot that the input makes under `id`.
pub open spec fn bot_of(id: Seq<char>, input: BotInputView) -> BotView {
    BotView {
        id,
        name: text::trimmed(input.name),
        host: text::trimmed(input.host),
        username: text_or(input.username, DEFAULT_SSH_USERNAME@),
        attach_command: text_or(input.attach_command, DEFAULT_ATTACH_COMMAND@),
        dashboard_port: port_or_default(input.dashboard_port),
    }
}

fn trimmed_or(t: &Option<String>, default: &str) -> (r: String)
    ensures
        r@ == text_or(optional_text(*t), default@),
{
    match t {
        Some(t) => {
            let s = text::trim(t.as_str());
            if s.as_str().is_empty() {
                default.to_owned()
            } else {
                s
            }
        },
        None => default.to_owned(),
    }
}

impl BotInput {
    /// The login user: the one entered, or the default.
    pub fn resolved_username(&self) -> (r: String)
        ensures
            r@ == text_or(self@.username, DEFAULT_SSH_USERNAME@),
    {
        trimmed_or(&self.username, DEFAULT_SSH_USERNAME)
    }

    /// The attach command: the one entered, or the default.
    pub fn resolved_attach_command(&self) -> (r: String)
        ensures
            r@ == text_or(self@.attach_command, DEFAULT_ATTACH_COMMAND@),
    {
        trimmed_or(&self.attach_command, DEFAULT_ATTACH_COMMAND)
    }

    /// The dashboard port: the one entered, or the default.
    pub fn resolved_dashboard_port(&self) -> (r: u16)
        ensures
            r == port_or_default(self@.dashboard_port),
    {
        match self.dashboard_port {
            Some(p) => if p != 0 {
                p
            } else {
                DEFAULT_DASHBOARD_PORT
            },
            None => DEFAULT_DASHBOARD_PORT,
        }
    }

    /// Refuses an input whose name or host is blank.
    pub fn validate(&self) -> (r: Result<(), StoreError>)
        ensures
            (match input_fault(self@) {
                Some(m) => r matches Err(e) && e@ == StoreErrorView::Invalid(m),
                None => r is Ok,
            }),
    {
        if text::trim(self.name.as_str()).as_str().is_empty() {
            return Err(StoreError::Invalid("name is required".to_owned()));
        }
        if text::trim(self.host.as_str()).as_str().is_empty() {
            return Err(StoreError::Invalid("host/IP is required".to_owned()));
        }
        Ok(())
    }

    /// The bot that the input makes under `id`.
    pub fn bot(&self, id: String) -> (r: Bot)
        ensures
            r@ == bot_of(id@, self@),
    {
        Bot {
            id,
            name: text::trim(self.name.as_str()),
            host: text::trim(self.host.as_str()),
            username: self.resolved_username(),
            attach_command: self.resolved_attach_command(),
            dashboard_port: self.resolved_dashboard_port(),
        }
    }
}

/// The saved bots and the id of the selected one.
#[derive(Debug, PartialEq, Eq)]
pub struct BotInventory {
    pub bots: Vec<Bot>,
    pub selected_bot_id: Option<String>,
}

/// The model of a [`BotInventory`].
#[verifier::ext_equal]
pub struct InventoryView {
    pub bots: Seq<BotView>,
    pub selected: Option<Seq<char>>,
}

/// The models of a list of bots.
pub open spec fn bot_views(bots: Seq<Bot>) -> Seq<BotView> {
    bots.map_values(|b: Bot| b@)
}

impl View for BotInventory {
    type V = InventoryView;

    open spec fn view(&self) -> InventoryView {
        InventoryView {
            bots: bot_views(self.bots@),
            selected: optional_text(self.selected_bot_id),
        }
    }
}

/// A copy of a list of bots.
fn cloned_bots(bots: &Vec<Bot>) -> (r: Vec<Bot>)
    ensures
        bot_views(r@) == bot_views(bots@),
{
    let mut copy: Vec<Bot> = Vec::new();
    let mut i: usize = 0;
    while i < bots.len()
        invariant
            i <= bots.len(),
            copy.len() == i,
            forall|k: int| 0 <= k < i ==> (#[trigger] copy@[k])@ == bots@[k]@,
        decreases bots.len() - i,
    {
        copy.push(bots[i].clone());
        i = i + 1;
    }
    assert(bot_views(copy@) =~= bot_views(bots@));
    copy
}

impl Clone for BotInventory {
    fn clone(&self) -> (r: Self)
        ensures
            r@ == self@,
    {
        BotInventory {
            bots: cloned_bots(&self.bots),
            selected_bot_id: cloned_text(&self.selected_bot_id),
        }
    }
}

/// The inventory with no bot and no selection.
pub open spec fn no_bots() -> InventoryView {
    InventoryView { bots: Seq::empty(), selected: None }
}

impl Default for BotInventory {
    fn default() -> (r: Self)
        ensures
            r@ == no_bots(),
    {
        let r = BotInventory { bots: Vec::new(), selected_bot_id: None };
        assert(r@.bots =~= Seq::<BotView>::empty());
        r
    }
}

/// Errors of the inventory layer.
#[derive(Debug)]
pub enum StoreError {
    /// There is no bot with this id.
    NotFound(String),
    /// A required field is blank.
    Invalid(String),
    /// The underlying store failed.
    Backend(String),
}

/// The model of a [`StoreError`].
#[verifier::ext_equal]
pub enum StoreErrorView {
    NotFound(Seq<char>),
    Invalid(Seq<char>),
    Backend(Seq<char>),
}

impl View for StoreError {
    type V = StoreErrorView;

    open spec fn view(&self) -> StoreErrorView {
        match self {
            StoreError::NotFound(id) => StoreErrorView::NotFound(id@),
            StoreError::Invalid(m) => StoreErrorView::Invalid(m@),
            StoreError::Backend(m) => StoreErrorView::Backend(m@),
        }
    }
}

/// What an error reads.
pub open spec fn error_text(e: StoreErrorView) -> Seq<char> {
    match e {
        StoreErrorView::NotFound(id) => "no bot with id `"@ + id + "`"@,
        StoreErrorView::Invalid(m) => "invalid bot: "@ + m,
        StoreErrorView::Backend(m) => "bot store backend error: "@ + m,
    }
}

impl StoreError {
    /// What the error reads.
    pub fn to_string(&self) -> (r: String)
        ensures
            r@ == error_text(self@),
    {
        match self {
            StoreError::NotFound(id) => {
                let mut s = text::joined("no bot with id `", id.as_str());
                s.append("`");
                s
            },
            StoreError::Invalid(m) => text::joined("invalid bot: ", m.as_str()),
            StoreError::Backend(m) => text::joined("bot store backend error: ", m.as_str()),
        }
    }
}

/// The inventory that came of reading its file at `path`.
pub fn inventory_from_file(path: &str, read: FileRead<BotInventory>) -> (r: Result<
    BotInventory,
    StoreError,
>)
    ensures
        (match read {
            FileRead::Missing => r matches Ok(inv) && inv@ == no_bots(),
            FileRead::Parsed(inv) => r == Ok::<BotInventory, StoreError>(inv),
            FileRead::Unreadable(cause) => r matches Err(e) && e@ == StoreErrorView::Backend(
                files::fault_text(files::FileFault::Read, path@, cause@),
            ),
            FileRead::Unparsable(cause) => r matches Err(e) && e@ == StoreErrorView::Backend(
                files::fault_text(files::FileFault::Parse, path@, cause@),
            ),
        }),
{
    match files::document(path, read, BotInventory::default()) {
        Ok(inv) => Ok(inv),
        Err(m) => Err(StoreError::Backend(m)),
    }
}

/// The place of the first bot with `id`, or the number of bots if there is none.
pub open spec fn place_of(bots: Seq<BotView>, id: Seq<char>) -> int
    decreases bots.len(),
{
    if bots.len() == 0 {
        0
    } else if bots[0].id == id {
        0
    } else {
        1 + place_of(bots.drop_first(), id)
    }
}

/// Whether there is a bot with `id`.
pub open spec fn has_bot(bots: Seq<BotView>, id: Seq<char>) -> bool {
    exists|i: int| 0 <= i < bots.len() && (#[trigger] bots[i]).id == id
}

/// The inventory after the bot of the input was added under `id`.
pub open spec fn with_added(
    inv: InventoryView,
    id: Seq<char>,
    input: BotInputView,
) -> InventoryView {
    InventoryView { bots: inv.bots.push(bot_of(id, input)), ..inv }
}

/// The inventory after the bot `id` was edited.
pub open spec fn with_updated(
    inv: InventoryView,
    id: Seq<char>,
    input: BotInputView,
) -> InventoryView {
    InventoryView { bots: inv.bots.update(place_of(inv.bots, id), bot_of(id, input)), ..inv }
}

/// The bots with another id than `id`, in their order.
pub open spec fn others(bots: Seq<BotView>, id: Seq<char>) -> Seq<BotView> {
    bots.filter(|b: BotView| b.id != id)
}

/// The inventory after the bot `id` was removed: the other bots, in their order, and no
/// selection if it was the selected one.
pub open spec fn with_removed(inv: InventoryView, id: Seq<char>) -> InventoryView {
    InventoryView {
        bots: others(inv.bots, id),
        selected: if inv.selected == Some(id) {
            None
        } else {
            inv.selected
        },
    }
}

/// The inventory after `id`, or nothing, was selected.
pub open spec fn with_selected(inv: InventoryView, id: Option<Seq<char>>) -> InventoryView {
    InventoryView { selected: id, ..inv }
}

proof fn lemma_place(bots: Seq<BotView>, id: Seq<char>, k: int)
    requires
        0 <= k <= bots.len(),
        forall|i: int| 0 <= i < k ==> (#[trigger] bots[i]).id != id,
        k < bots.len() ==> bots[k].id == id,
    ensures
        place_of(bots, id) == k,
        has_bot(bots, id) <==> k < bots.len(),
    decreases bots.len(),
{
    if bots.len() > 0 && k > 0 {
        assert(bots[0].id != id);
        let rest = bots.drop_first();
        assert forall|i: int| 0 <= i < k - 1 implies (#[trigger] rest[i]).id != id by {
            assert(rest[i] == bots[i + 1]);
        }
        lemma_place(rest, id, k - 1);
    }
    if k < bots.len() {
        assert(bots[k].id == id);
    }
}

/// The place of the first bot with `id`.
fn find_bot(bots: &Vec<Bot>, id: &str) -> (r: Option<usize>)
    ensures
        (match r {
            Some(i) => {
                &&& has_bot(bot_views(bots@), id@)
                &&& i < bots@.len()
                &&& i == place_of(bot_views(bots@), id@)
                &&& bots@[i as int].id@ == id@
            },
            None => !has_bot(bot_views(bots@), id@),
        }),
{
    let ghost views = bot_views(bots@);
    let mut i: usize = 0;
    while i < bots.len()
        invariant
            views == bot_views(bots@),
            i <= bots.len(),
            forall|k: int| 0 <= k < i ==> (#[trigger] views[k]).id != id@,
        decreases bots.len() - i,
    {
        assert(views[i as int] == bots@[i as int]@);
        if text::same_text(bots[i].id.as_str(), id) {
            proof {
                lemma_place(views, id@, i as int);
            }
            return Some(i);
        }
        i = i + 1;
    }
    proof {
        lemma_place(views, id@, i as int);
    }
    None
}

impl BotInventory {
    /// Adds the bot of a valid input under `id`, and hands out a copy of it.
    pub fn add_bot(&mut self, id: String, input: &BotInput) -> (r: Bot)
        ensures
            r@ == bot_of(id@, input@),
            final(self)@ == with_added(old(self)@, id@, input@),
    {
        let bot = input.bot(id);
        let ghost before = self@.bots;
        self.bots.push(bot.clone());
        assert(self@.bots =~= before.push(bot@));
        bot
    }

    /// Edits the bot `id`, and hands out a copy of it.
    pub fn update_bot(&mut self, id: &str, input: &BotInput) -> (r: Result<Bot, StoreError>)
        ensures
            (match r {
                Ok(bot) => {
                    &&& has_bot(old(self)@.bots, id@)
                    &&& bot@ == bot_of(id@, input@)
                    &&& final(self)@ == with_updated(old(self)@, id@, input@)
                },
                Err(e) => {
                    &&& !has_bot(old(self)@.bots, id@)
                    &&& e@ == StoreErrorView::NotFound(id@)
                    &&& final(self)@ == old(self)@
                },
            }),
    {
        match find_bot(&self.bots, id) {
            Some(i) => {
                let bot = input.bot(id.to_owned());
                let ghost before = self@.bots;
                self.bots.set(i, bot.clone());
                assert(self@.bots =~= before.update(i as int, bot@));
                Ok(bot)
            },
            None => Err(StoreError::NotFound(id.to_owned())),
        }
    }

    /// Removes the bot `id`, and clears the selection if it was the selected one.
    pub fn remove_bot(&mut self, id: &str) -> (r: Result<(), StoreError>)
        ensures
            (match r {
                Ok(_) => {
                    &&& has_bot(old(self)@.bots, id@)
                    &&& final(self)@ == with_removed(old(self)@, id@)
                },
                Err(e) => {
                    &&& !has_bot(old(self)@.bots, id@)
                    &&& e@ == StoreErrorView::NotFound(id@)
                    &&& final(self)@ == old(self)@
                },
            }),
    {
        if find_bot(&self.bots, id).is_none() {
            return Err(StoreError::NotFound(id.to_owned()));
        }
        let ghost views = self@.bots;
        let ghost keep = |b: BotView| b.id != id@;
        let mut kept: Vec<Bot> = Vec::new();
        let mut i: usize = 0;
        proof {
            assert(views.take(0) =~= Seq::<BotView>::empty());
            reveal(Seq::filter);
        }
        while i < self.bots.len()
            invariant
                i <= self.bots.len(),
                views == bot_views(self.bots@),
                keep == (|b: BotView| b.id != id@),
                bot_views(kept@) == views.take(i as int).filter(keep),
            decreases self.bots.len() - i,
        {
            let ghost so_far = bot_views(kept@);
            proof {
                reveal(Seq::filter);
                assert(views[i as int] == self.bots@[i as int]@);
                assert(views.take(i + 1).drop_last() =~= views.take(i as int));
                assert(views.take(i + 1).last() == views[i as int]);
            }
            if !text::same_text(self.bots[i].id.as_str(), id) {
                kept.push(self.bots[i].clone());
                assert(bot_views(kept@) =~= so_far.push(views[i as int]));
            }
            i = i + 1;
        }
        assert(views.take(i as int) =~= views);
        self.bots = kept;
        let selected: bool = match &self.selected_bot_id {
            Some(s) => text::same_text(s.as_str(), id),
            None => false,
        };
        if selected {
            self.selected_bot_id = None;
        }
        Ok(())
    }

    /// Selects the bot `id`, or none.
    pub fn select_bot(&mut self, id: Option<&str>) -> (r: Result<(), StoreError>)
        ensures
            (match r {
                Ok(_) => {
                    &&& id matches Some(id) ==> has_bot(old(self)@.bots, id@)
                    &&& final(self)@ == with_selected(
                        old(self)@,
                        match id {
                            Some(id) => Some(id@),
                            None => None,
                        },
                    )
                },
                Err(e) => {
                    &&& id matches Some(id) && !has_bot(old(self)@.bots, id@) && e@
                        == StoreErrorView::NotFound(id@)
                    &&& final(self)@ == old(self)@
                },
            }),
    {
        match id {
            Some(id) => {
                if find_bot(&self.bots, id).is_none() {
                    return Err(StoreError::NotFound(id.to_owned()));
                }
                self.selected_bot_id = Some(id.to_owned());
            },
            None => {
                self.selected_bot_id = None;
            },
        }
        Ok(())
    }
}

/// Whether `c` is a lower-case hexadecimal digit.
pub open spec fn is_hex(c: char) -> bool {
    ('0' <= c <= '9') || ('a' <= c <= 'f')
}

/// Whether `id` is the hyphenated text of a random (version 4) UUID.
pub open spec fn is_uuid_v4(id: Seq<char>) -> bool {
    &&& id.len() == 36
    &&& id[8] == '-' && id[13] == '-' && id[18] == '-' && id[23] == '-'
    &&& forall|i: int|
        0 <= i < 36 && i != 8 && i != 13 && i != 18 && i != 23 ==> is_hex(#[trigger] id[i])
    &&& id[14] == '4'
    &&& id[19] == '8' || id[19] == '9' || id[19] == 'a' || id[19] == 'b'
}

/// Calls `uuid::Uuid::new_v4` and renders the result. Claims the form of the text; which
/// one it is is chance. The call panics when the operating system has no randomness to
/// give.
#[verifier::external_body]
fn fresh_id() -> (r: String)
    ensures
        is_uuid_v4(r@),
{
    uuid::Uuid::new_v4().to_string()
}

/// Persistence of the inventory, which is read and written as a whole.
///
/// The `spec` methods are the model that contracts speak of; nothing calls them at run time.
pub trait BotStore: Send + Sync {
    /// The inventory that the store holds.
    spec fn held(&self) -> InventoryView;

    /// Whether reading the store may end in the error `e`.
    spec fn load_error(&self, e: StoreErrorView) -> bool;

    /// Whether writing the store may end in the error `e`.
    spec fn save_error(&self, e: StoreErrorView) -> bool;

    /// Reads the inventory. A store that was never written holds the empty one.
    fn load(&self) -> (r: Result<BotInventory, StoreError>)
        ensures
            (match r {
                Ok(inv) => inv@ == self.held(),
                Err(e) => self.load_error(e@),
            }),
    ;

    /// Writes the inventory, in place of what the store held.
    fn save(&mut self, inventory: &BotInventory) -> (r: Result<(), StoreError>)
        ensures
            (match r {
                Ok(_) => final(self).held() == inventory@,
                Err(e) => old(self).save_error(e@),
            }),
    ;
}

/// The inventory operations over a [`BotStore`].
pub struct Inventory<S: BotStore> {
    store: S,
}

impl<S: BotStore> Inventory<S> {
    /// The store that is operated on.
    pub closed spec fn store(&self) -> S {
        self.store
    }

    /// The inventory that the store holds.
    pub open spec fn held(&self) -> InventoryView {
        self.store().held()
    }

    /// Whether reading the store failed with `e`, which leaves it as it was.
    pub open spec fn read_failed(&self, e: StoreErrorView, after: &Self) -> bool {
        self.store().load_error(e) && after.store() == self.store()
    }

    /// The operations over `store`.
    pub fn new(store: S) -> (r: Self)
        ensures
            r.store() == store,
    {
        Inventory { store }
    }

    /// The saved bots.
    pub fn list(&self) -> (r: Result<Vec<Bot>, StoreError>)
        ensures
            (match r {
                Ok(bots) => bot_views(bots@) == self.held().bots,
                Err(e) => self.store().load_error(e@),
            }),
    {
        match self.store.load() {
            Ok(inv) => Ok(inv.bots),
            Err(e) => Err(e),
        }
    }

    /// The saved bots and the selection.
    pub fn inventory(&self) -> (r: Result<BotInventory, StoreError>)
        ensures
            (match r {
                Ok(inv) => inv@ == self.held(),
                Err(e) => self.store().load_error(e@),
            }),
    {
        self.store.load()
    }

    /// Adds a bot under a fresh id, and hands out what was saved.
    pub fn add(&mut self, input: BotInput) -> (r: Result<Bot, StoreError>)
        ensures
            (match input_fault(input@) {
                Some(m) => {
                    &&& r matches Err(e) && e@ == StoreErrorView::Invalid(m)
                    &&& final(self).store() == old(self).store()
                },
                None => match r {
                    Ok(bot) => {
                        &&& is_uuid_v4(bot@.id)
                        &&& bot@ == bot_of(bot@.id, input@)
                        &&& final(self).held() == with_added(old(self).held(), bot@.id, input@)
                    },
                    Err(e) => {
                        ||| old(self).read_failed(e@, final(self))
                        ||| old(self).store().save_error(e@)
                    },
                },
            }),
    {
        match input.validate() {
            Ok(_) => {},
            Err(e) => return Err(e),
        }
        let id = fresh_id();
        match self.store.load() {
            Ok(mut inv) => {
                let bot = inv.add_bot(id, &input);
                match self.store.save(&inv) {
                    Ok(_) => Ok(bot),
                    Err(e) => Err(e),
                }
            },
            Err(e) => Err(e),
        }
    }

    /// Edits the bot `id`, and hands out what was saved. Blank fields get the defaults
    /// again.
    pub fn update(&mut self, id: &str, input: BotInput) -> (r: Result<Bot, StoreError>)
        ensures
            (match input_fault(input@) {
                Some(m) => {
                    &&& r matches Err(e) && e@ == StoreErrorView::Invalid(m)
                    &&& final(self).store() == old(self).store()
                },
                None => match r {
                    Ok(bot) => {
                        &&& has_bot(old(self).held().bots, id@)
                        &&& bot@ == bot_of(id@, input@)
                        &&& final(self).held() == with_updated(old(self).held(), id@, input@)
                    },
                    Err(e) => {
                        ||| old(self).read_failed(e@, final(self))
                        ||| {
                            &&& !has_bot(old(self).held().bots, id@)
                            &&& e@ == StoreErrorView::NotFound(id@)
                            &&& final(self).store() == old(self).store()
                        }
                        ||| has_bot(old(self).held().bots, id@) && old(self).store().save_error(e@)
                    },
                },
            }),
    {
        match input.validate() {
            Ok(_) => {},
            Err(e) => return Err(e),
        }
        match self.store.load() {
            Ok(mut inv) => match inv.update_bot(id, &input) {
                Ok(bot) => match self.store.save(&inv) {
                    Ok(_) => Ok(bot),
                    Err(e) => Err(e),
                },
                Err(e) => Err(e),
            },
            Err(e) => Err(e),
        }
    }

    /// Removes the bot `id`, and clears the selection if it was the selected one.
    pub fn remove(&mut self, id: &str) -> (r: Result<(), StoreError>)
        ensures
            (match r {
                Ok(_) => {
                    &&& has_bot(old(self).held().bots, id@)
                    &&& final(self).held() == with_removed(old(self).held(), id@)
                },
                Err(e) => {
                    ||| old(self).read_failed(e@, final(self))
                    ||| {
                        &&& !has_bot(old(self).held().bots, id@)
                        &&& e@ == StoreErrorView::NotFound(id@)
                        &&& final(self).store() == old(self).store()
                    }
                    ||| has_bot(old(self).held().bots, id@) && old(self).store().save_error(e@)
                },
            }),
    {
        match self.store.load() {
            Ok(mut inv) => match inv.remove_bot(id) {
                Ok(_) => self.store.save(&inv),
                Err(e) => Err(e),
            },
            Err(e) => Err(e),
        }
    }

    /// Selects the bot `id`, or none.
    pub fn select(&mut self, id: Option<&str>) -> (r: Result<(), StoreError>)
        ensures
            (match r {
                Ok(_) => {
                    &&& id matches Some(id) ==> has_bot(old(self).held().bots, id@)
                    &&& final(self).held() == with_selected(
                        old(self).held(),
                        match id {
                            Some(id) => Some(id@),
                            None => None,
                        },
                    )
                },
                Err(e) => {
                    ||| old(self).read_failed(e@, final(self))
                    ||| {
                        &&& id matches Some(id) && !has_bot(old(self).held().bots, id@) && e@
                            == StoreErrorView::NotFound(id@)
                        &&& final(self).store() == old(self).store()
                    }
                    ||| {
                        &&& id matches Some(id) ==> has_bot(old(self).held().bots, id@)
                        &&& old(self).store().save_error(e@)
                    }
                },
            }),
    {
        match self.store.load() {
            Ok(mut inv) => match inv.select_bot(id) {
                Ok(_) => self.store.save(&inv),
                Err(e) => Err(e),
            },
            Err(e) => Err(e),
        }
    }
}

/// A [`BotStore`] that holds the inventory in memory.
pub struct MemoryBotStore {
    inner: BotInventory,
}

impl MemoryBotStore {
    /// The inventory that is held.
    pub closed spec fn contents(&self) -> BotInventory {
        self.inner
    }

    /// A store with no bot.
    pub fn new() -> (r: Self)
        ensures
            r.held() == no_bots(),
    {
        MemoryBotStore { inner: BotInventory::default() }
    }
}

impl Default for MemoryBotStore {
    fn default() -> (r: Self)
        ensures
            r.held() == no_bots(),
    {
        MemoryBotStore::new()
    }
}

impl BotStore for MemoryBotStore {
    open spec fn held(&self) -> InventoryView {
        self.contents()@
    }

    open spec fn load_error(&self, e: StoreErrorView) -> bool {
        false
    }

    open spec fn save_error(&self, e: StoreErrorView) -> bool {
        false
    }

    fn load(&self) -> (r: Result<BotInventory, StoreError>) {
        Ok(self.inner.clone())
    }

    fn save(&mut self, inventory: &BotInventory) -> (r: Result<(), StoreError>) {
        self.inner = inventory.clone();
        Ok(())
    }
}

/// Whether no two bots share an id.
pub open spec fn ids_are_distinct(bots: Seq<BotView>) -> bool {
    forall|i: int, j: int|
        #![trigger bots[i], bots[j]]
        0 <= i < j < bots.len() ==> bots[i].id != bots[j].id
}

/// Whether the selection, if there is one, is the id of a bot.
pub open spec fn selection_is_live(inv: InventoryView) -> bool {
    inv.selected matches Some(id) ==> has_bot(inv.bots, id)
}

/// Whether a bot holds concrete values: trimmed and not blank, and a port that is not zero.
pub open spec fn is_concrete(bot: BotView) -> bool {
    &&& bot.name.len() > 0 && text::trimmed(bot.name) == bot.name
    &&& bot.host.len() > 0 && text::trimmed(bot.host) == bot.host
    &&& bot.username.len() > 0 && text::trimmed(bot.username) == bot.username
    &&& bot.attach_command.len() > 0 && text::trimmed(bot.attach_command) == bot.attach_command
    &&& bot.dashboard_port != 0
}

/// A bot made of a valid input holds concrete values, whatever was left blank.
pub proof fn saved_bots_are_concrete(id: Seq<char>, input: BotInputView)
    requires
        input_fault(input) is None,
    ensures
        is_concrete(bot_of(id, input)),
{
    text::trimming_is_idempotent(input.name);
    text::trimming_is_idempotent(input.host);
    if input.username is Some {
        text::trimming_is_idempotent(input.username->0);
    }
    if input.attach_command is Some {
        text::trimming_is_idempotent(input.attach_command->0);
    }
    reveal_strlit("hermes");
    reveal_strlit("tmux attach -t hermes");
}

/// Fields that are left out, blank or zero get the defaults; others are kept, trimmed.
pub proof fn defaults_fill_blank_fields(id: Seq<char>, input: BotInputView)
    ensures
        (input.username is None || text::trimmed(input.username->0).len() == 0) ==> bot_of(
            id,
            input,
        ).username == DEFAULT_SSH_USERNAME@,
        (input.attach_command is None || text::trimmed(input.attach_command->0).len() == 0)
            ==> bot_of(id, input).attach_command == DEFAULT_ATTACH_COMMAND@,
        (input.dashboard_port is None || input.dashboard_port == Some(0u16)) ==> bot_of(
            id,
            input,
        ).dashboard_port == DEFAULT_DASHBOARD_PORT,
        (input.username is Some && text::trimmed(input.username->0).len() > 0) ==> bot_of(
            id,
            input,
        ).username == text::trimmed(input.username->0),
        (input.attach_command is Some && text::trimmed(input.attach_command->0).len() > 0)
            ==> bot_of(id, input).attach_command == text::trimmed(input.attach_command->0),
        (input.dashboard_port is Some && input.dashboard_port->0 != 0) ==> bot_of(
            id,
            input,
        ).dashboard_port == input.dashboard_port->0,
{
}

/// Adding keeps every bot in its place and the selection as it is. A fresh id keeps ids
/// distinct.
pub proof fn adding_keeps_the_rest(inv: InventoryView, id: Seq<char>, input: BotInputView)
    ensures
        with_added(inv, id, input).bots.len() == inv.bots.len() + 1,
        forall|i: int|
            0 <= i < inv.bots.len() ==> #[trigger] with_added(inv, id, input).bots[i]
                == inv.bots[i],
        with_added(inv, id, input).selected == inv.selected,
        has_bot(with_added(inv, id, input).bots, id),
        selection_is_live(inv) ==> selection_is_live(with_added(inv, id, input)),
        ids_are_distinct(inv.bots) && !has_bot(inv.bots, id) ==> ids_are_distinct(
            with_added(inv, id, input).bots,
        ),
{
    let after = with_added(inv, id, input);
    assert(after.bots[inv.bots.len() as int].id == id);
    if selection_is_live(inv) && inv.selected is Some {
        let k = choose|k: int| 0 <= k < inv.bots.len() && (#[trigger] inv.bots[k]).id
            == inv.selected->0;
        assert(after.bots[k].id == inv.selected->0);
    }
}

proof fn lemma_place_bounds(bots: Seq<BotView>, id: Seq<char>)
    requires
        has_bot(bots, id),
    ensures
        0 <= place_of(bots, id) < bots.len(),
        bots[place_of(bots, id)].id == id,
    decreases bots.len(),
{
    let k = choose|k: int| 0 <= k < bots.len() && (#[trigger] bots[k]).id == id;
    assert(bots[k].id == id);
    if bots[0].id != id {
        let rest = bots.drop_first();
        assert(rest[k - 1] == bots[k]);
        lemma_place_bounds(rest, id);
    }
}

/// Editing changes the one bot and nothing else: not its id, not its place, no other bot,
/// not the selection.
pub proof fn updating_changes_one_bot(inv: InventoryView, id: Seq<char>, input: BotInputView)
    requires
        has_bot(inv.bots, id),
    ensures
        with_updated(inv, id, input).bots.len() == inv.bots.len(),
        with_updated(inv, id, input).selected == inv.selected,
        with_updated(inv, id, input).bots[place_of(inv.bots, id)] == bot_of(id, input),
        forall|i: int|
            0 <= i < inv.bots.len() && i != place_of(inv.bots, id) ==> #[trigger] with_updated(
                inv,
                id,
                input,
            ).bots[i] == inv.bots[i],
        forall|i: int|
            0 <= i < inv.bots.len() ==> (#[trigger] with_updated(inv, id, input).bots[i]).id
                == inv.bots[i].id,
        ids_are_distinct(inv.bots) ==> ids_are_distinct(with_updated(inv, id, input).bots),
        selection_is_live(inv) ==> selection_is_live(with_updated(inv, id, input)),
{
    lemma_place_bounds(inv.bots, id);
    let after = with_updated(inv, id, input);
    assert forall|i: int| 0 <= i < inv.bots.len() implies (#[trigger] after.bots[i]).id
        == inv.bots[i].id by {}
    if ids_are_distinct(inv.bots) {
        assert forall|i: int, j: int| 0 <= i < j < after.bots.len() implies (
        #[trigger] after.bots[i]).id != (#[trigger] after.bots[j]).id by {
            assert(inv.bots[i].id != inv.bots[j].id);
        }
    }
    if selection_is_live(inv) && inv.selected is Some {
        let k = choose|k: int| 0 <= k < inv.bots.len() && (#[trigger] inv.bots[k]).id
            == inv.selected->0;
        assert(after.bots[k].id == inv.selected->0);
    }
}

proof fn lemma_others(bots: Seq<BotView>, id: Seq<char>)
    ensures
        forall|b: BotView|
            b.id != id && #[trigger] bots.contains(b) ==> others(bots, id).contains(b),
        forall|i: int|
            0 <= i < others(bots, id).len() ==> (#[trigger] others(bots, id)[i]).id != id
                && bots.contains(others(bots, id)[i]),
        ids_are_distinct(bots) ==> ids_are_distinct(others(bots, id)),
    decreases bots.len(),
{
    reveal(Seq::filter);
    let after = others(bots, id);
    if bots.len() > 0 {
        let rest = bots.drop_last();
        let kept = others(rest, id);
        lemma_others(rest, id);
        assert(bots =~= rest.push(bots.last()));
        assert forall|b: BotView| b.id != id && #[trigger] bots.contains(b) implies after.contains(
            b,
        ) by {
            let k = choose|k: int| 0 <= k < bots.len() && bots[k] == b;
            if k < rest.len() {
                assert(rest[k] == b);
                assert(rest.contains(b));
                let m = choose|m: int| 0 <= m < kept.len() && kept[m] == b;
                assert(after[m] == b);
            } else {
                assert(after[kept.len() as int] == b);
            }
        }
        assert forall|i: int| 0 <= i < after.len() implies (#[trigger] after[i]).id != id
            && bots.contains(after[i]) by {
            if i < kept.len() {
                assert(after[i] == kept[i]);
                assert(rest.contains(kept[i]));
                let k = choose|k: int| 0 <= k < rest.len() && rest[k] == kept[i];
                assert(bots[k] == after[i]);
            } else {
                assert(bots[bots.len() - 1] == after[i]);
            }
        }
        if ids_are_distinct(bots) {
            assert(ids_are_distinct(rest)) by {
                assert forall|i: int, j: int| 0 <= i < j < rest.len() implies (
                #[trigger] rest[i]).id != (#[trigger] rest[j]).id by {
                    assert(bots[i].id != bots[j].id);
                }
            }
            assert forall|i: int, j: int| 0 <= i < j < after.len() implies (
            #[trigger] after[i]).id != (#[trigger] after[j]).id by {
                if j < kept.len() {
                    assert(kept[i].id != kept[j].id);
                } else {
                    assert(after[i] == kept[i]);
                    assert(rest.contains(kept[i]));
                    let k = choose|k: int| 0 <= k < rest.len() && rest[k] == kept[i];
                    assert(bots[k].id != bots[bots.len() - 1].id);
                }
            }
        }
    }
}

/// Removing drops the one bot and keeps every other; the selection never points at a bot
/// that is gone.
pub proof fn removing_drops_one_bot(inv: InventoryView, id: Seq<char>)
    ensures
        !has_bot(with_removed(inv, id).bots, id),
        forall|b: BotView|
            b.id != id ==> #[trigger] with_removed(inv, id).bots.contains(b) == inv.bots.contains(
                b,
            ),
        with_removed(inv, id).selected != Some(id),
        inv.selected != Some(id) ==> with_removed(inv, id).selected == inv.selected,
        ids_are_distinct(inv.bots) ==> ids_are_distinct(with_removed(inv, id).bots),
        selection_is_live(inv) ==> selection_is_live(with_removed(inv, id)),
{
    lemma_others(inv.bots, id);
    let after = with_removed(inv, id);
    assert forall|b: BotView| b.id != id implies #[trigger] after.bots.contains(b)
        == inv.bots.contains(b) by {
        if after.bots.contains(b) {
            let i = choose|i: int| 0 <= i < after.bots.len() && after.bots[i] == b;
            assert(inv.bots.contains(after.bots[i]));
        }
    }
    if selection_is_live(inv) && after.selected is Some {
        let k = choose|k: int| 0 <= k < inv.bots.len() && (#[trigger] inv.bots[k]).id
            == inv.selected->0;
        let b = inv.bots[k];
        assert(inv.bots.contains(b));
        assert(after.bots.contains(b));
        let m = choose|m: int| 0 <= m < after.bots.len() && after.bots[m] == b;
        assert(after.bots[m].id == inv.selected->0);
    }
}

/// Removing the bot that was just added gives back the inventory as it was, unless it was
/// selected in between.
pub proof fn removing_undoes_adding(inv: InventoryView, id: Seq<char>, input: BotInputView)
    requires
        !has_bot(inv.bots, id),
        inv.selected != Some(id),
    ensures
        with_removed(with_added(inv, id, input), id) == inv,
{
    reveal(Seq::filter);
    let after = with_added(inv, id, input);
    assert(after.bots.drop_last() =~= inv.bots);
    lemma_all_others(inv.bots, id);
    assert(with_removed(after, id).bots =~= inv.bots);
}

proof fn lemma_all_others(bots: Seq<BotView>, id: Seq<char>)
    requires
        !has_bot(bots, id),
    ensures
        others(bots, id) == bots,
    decreases bots.len(),
{
    reveal(Seq::filter);
    if bots.len() > 0 {
        let rest = bots.drop_last();
        assert(!has_bot(rest, id)) by {
            if has_bot(rest, id) {
                let k = choose|k: int| 0 <= k < rest.len() && (#[trigger] rest[k]).id == id;
                assert(bots[k].id == id);
            }
        }
        lemma_all_others(rest, id);
        assert(bots[bots.len() - 1].id != id);
        assert(rest.push(bots.last()) =~= bots);
    }
}

/// Selecting changes no bot, and selects only what there is.
pub proof fn selecting_changes_no_bot(inv: InventoryView, id: Option<Seq<char>>)
    requires
        id matches Some(id) ==> has_bot(inv.bots, id),
    ensures
        with_selected(inv, id).bots == inv.bots,
        with_selected(inv, id).selected == id,
        selection_is_live(with_selected(inv, id)),
{
}

/// The models of a bot, an input and an inventory hold the fields as they are, one for one.
pub proof fn models_hold_the_fields(bot: Bot, input: BotInput, inv: BotInventory)
    ensures
        bot@.id == bot.id@,
        bot@.name == bot.name@,
        bot@.host == bot.host@,
        bot@.username == bot.username@,
        bot@.attach_command == bot.attach_command@,
        bot@.dashboard_port == bot.dashboard_port,
        input@.name == input.name@,
        input@.host == input.host@,
        input.username matches Some(u) ==> input@.username == Some(u@),
        input.username is None ==> input@.username is None,
        input.attach_command matches Some(c) ==> input@.attach_command == Some(c@),
        input.attach_command is None ==> input@.attach_command is None,
        input@.dashboard_port == input.dashboard_port,
        inv@.bots.len() == inv.bots@.len(),
        forall|i: int| 0 <= i < inv.bots@.len() ==> #[trigger] inv@.bots[i] == inv.bots@[i]@,
        inv.selected_bot_id matches Some(id) ==> inv@.selected == Some(id@),
        inv.selected_bot_id is None ==> inv@.selected is None,
        no_bots().bots.len() == 0,
        no_bots().selected is None,
{
}

/// A list of models has the model of each bot in its place.
pub proof fn each_bot_has_its_model(bots: Seq<Bot>)
    ensures
        bot_views(bots).len() == bots.len(),
        forall|i: int| 0 <= i < bots.len() ==> #[trigger] bot_views(bots)[i] == bots[i]@,
{
}

/// The name and the host of a bot are those entered, without white space at the ends and
/// otherwise whole, and its id is the one it was given.
pub proof fn bots_keep_what_was_entered(id: Seq<char>, input: BotInputView)
    ensures
        bot_of(id, input).id == id,
        bot_of(id, input).name == text::trimmed(input.name),
        bot_of(id, input).host == text::trimmed(input.host),
{
}

/// The defaults are these.
pub proof fn the_defaults(id: Seq<char>, input: BotInputView)
    requires
        input.username is None || text::trimmed(input.username->0).len() == 0,
        input.attach_command is None || text::trimmed(input.attach_command->0).len() == 0,
        input.dashboard_port is None || input.dashboard_port == Some(0u16),
    ensures
        bot_of(id, input).username == "hermes"@,
        bot_of(id, input).attach_command == "tmux attach -t hermes"@,
        bot_of(id, input).dashboard_port == 9119,
{
}

/// An input is refused exactly if its name or its host is blank, and the name comes first.
pub proof fn blank_names_and_hosts_are_refused(input: BotInputView)
    ensures
        input_fault(input) is None <==> text::trimmed(input.name).len() > 0 && text::trimmed(
            input.host,
        ).len() > 0,
        text::trimmed(input.name).len() == 0 ==> input_fault(input) == Some("name is required"@),
        text::trimmed(input.name).len() > 0 && text::trimmed(input.host).len() == 0 ==> input_fault(
            input,
        ) == Some("host/IP is required"@),
{
}

/// The place of an id is the first one that has it, and there is such a bot exactly if the
/// place is in the list.
pub proof fn the_place_is_the_first(bots: Seq<BotView>, id: Seq<char>)
    ensures
        0 <= place_of(bots, id) <= bots.len(),
        forall|i: int| 0 <= i < place_of(bots, id) ==> (#[trigger] bots[i]).id != id,
        place_of(bots, id) < bots.len() ==> bots[place_of(bots, id)].id == id,
        has_bot(bots, id) <==> place_of(bots, id) < bots.len(),
        has_bot(bots, id) <==> !(forall|i: int|
            0 <= i < bots.len() ==> (#[trigger] bots[i]).id != id),
    decreases bots.len(),
{
    if bots.len() > 0 {
        if bots[0].id != id {
            let rest = bots.drop_first();
            the_place_is_the_first(rest, id);
            let p = place_of(rest, id);
            assert forall|i: int| 0 <= i < p + 1 implies (#[trigger] bots[i]).id != id by {
                if i > 0 {
                    assert(rest[i - 1] == bots[i]);
                }
            }
            if has_bot(bots, id) {
                let k = choose|k: int| 0 <= k < bots.len() && (#[trigger] bots[k]).id == id;
                assert(rest[k - 1].id == id);
            }
            if p < rest.len() {
                assert(bots[p + 1] == rest[p]);
            }
        } else {
            assert(bots[0].id == id);
        }
    }
}

/// Adding puts the one new bot, with the entered fields, behind all others.
pub proof fn added_bots_come_last(inv: InventoryView, id: Seq<char>, input: BotInputView)
    ensures
        with_added(inv, id, input).bots.drop_last() == inv.bots,
        with_added(inv, id, input).bots.last().id == id,
        with_added(inv, id, input).bots.last().name == text::trimmed(input.name),
        with_added(inv, id, input).bots.last().host == text::trimmed(input.host),
        with_added(inv, id, input).bots.last() == bot_of(id, input),
{
    assert(with_added(inv, id, input).bots.drop_last() =~= inv.bots);
}

/// Removing keeps all other bots in their order: the list afterwards is made up of exactly
/// the places of the list before that hold another id, in ascending order.
pub proof fn removing_keeps_the_order(inv: InventoryView, id: Seq<char>) -> (places: Seq<int>)
    ensures
        places.len() == with_removed(inv, id).bots.len(),
        forall|i: int, j: int|
            #![trigger places[i], places[j]]
            0 <= i < j < places.len() ==> places[i] < places[j],
        forall|i: int|
            0 <= i < places.len() ==> 0 <= #[trigger] places[i] < inv.bots.len() && with_removed(
                inv,
                id,
            ).bots[i] == inv.bots[places[i]] && inv.bots[places[i]].id != id,
        forall|k: int|
            0 <= k < inv.bots.len() && (#[trigger] inv.bots[k]).id != id ==> places.contains(k),
{
    lemma_kept_places(inv.bots, id)
}

proof fn lemma_kept_places(bots: Seq<BotView>, id: Seq<char>) -> (places: Seq<int>)
    ensures
        places.len() == others(bots, id).len(),
        forall|i: int, j: int|
            #![trigger places[i], places[j]]
            0 <= i < j < places.len() ==> places[i] < places[j],
        forall|i: int|
            0 <= i < places.len() ==> 0 <= #[trigger] places[i] < bots.len() && others(bots, id)[i]
                == bots[places[i]] && bots[places[i]].id != id,
        forall|k: int| 0 <= k < bots.len() && (#[trigger] bots[k]).id != id ==> places.contains(k),
    decreases bots.len(),
{
    reveal(Seq::filter);
    if bots.len() == 0 {
        Seq::empty()
    } else {
        let rest = bots.drop_last();
        let last = bots.len() - 1;
        let before = lemma_kept_places(rest, id);
        let places = if bots.last().id != id {
            before.push(last)
        } else {
            before
        };
        let after = others(bots, id);
        assert forall|i: int| 0 <= i < places.len() implies 0 <= #[trigger] places[i] < bots.len()
            && after[i] == bots[places[i]] && bots[places[i]].id != id by {
            if i < before.len() {
                assert(places[i] == before[i]);
                assert(after[i] == others(rest, id)[i]);
                assert(rest[before[i]] == bots[before[i]]);
            }
        }
        assert forall|k: int| 0 <= k < bots.len() && (
        #[trigger] bots[k]).id != id implies places.contains(k) by {
            if k < last {
                assert(rest[k] == bots[k]);
                let m = before.index_of(k);
                assert(places[m] == k);
            } else {
                assert(places[before.len() as int] == k);
            }
        }
        places
    }
}

/// With distinct ids, removing takes out the one place and closes the gap.
pub proof fn removing_takes_one_place_out(inv: InventoryView, id: Seq<char>, p: int)
    requires
        ids_are_distinct(inv.bots),
        0 <= p < inv.bots.len(),
        inv.bots[p].id == id,
    ensures
        with_removed(inv, id).bots == inv.bots.remove(p),
{
    lemma_one_place_out(inv.bots, id, p);
}

proof fn lemma_one_place_out(bots: Seq<BotView>, id: Seq<char>, p: int)
    requires
        ids_are_distinct(bots),
        0 <= p < bots.len(),
        bots[p].id == id,
    ensures
        others(bots, id) == bots.remove(p),
    decreases bots.len(),
{
    reveal(Seq::filter);
    let rest = bots.drop_last();
    let last = bots.len() - 1;
    if p == last {
        if has_bot(rest, id) {
            let k = choose|k: int| 0 <= k < rest.len() && (#[trigger] rest[k]).id == id;
            assert(bots[k].id != bots[p].id);
        }
        lemma_all_others(rest, id);
        assert(bots.remove(p) =~= rest);
    } else {
        assert(ids_are_distinct(rest)) by {
            assert forall|i: int, j: int| 0 <= i < j < rest.len() implies (
            #[trigger] rest[i]).id != (#[trigger] rest[j]).id by {
                assert(bots[i].id != bots[j].id);
            }
        }
        assert(rest[p] == bots[p]);
        lemma_one_place_out(rest, id, p);
        assert(bots[p].id != bots[last].id);
        assert(bots.remove(p) =~= rest.remove(p).push(bots.last()));
    }
}

/// Whether ids are distinct is told by the places of the list.
pub proof fn distinct_means_no_two_places(bots: Seq<BotView>, i: int, j: int)
    requires
        ids_are_distinct(bots),
        0 <= i < bots.len(),
        0 <= j < bots.len(),
        bots[i].id == bots[j].id,
    ensures
        i == j,
{
}

/// What each error reads, and that its model holds its text.
pub proof fn store_errors_read(e: StoreError)
    ensures
        e matches StoreError::NotFound(id) ==> error_text(e@) == "no bot with id `"@ + id@ + "`"@
            && e@ == StoreErrorView::NotFound(id@),
        e matches StoreError::Invalid(m) ==> error_text(e@) == "invalid bot: "@ + m@ && e@
            == StoreErrorView::Invalid(m@),
        e matches StoreError::Backend(m) ==> error_text(e@) == "bot store backend error: "@ + m@
            && e@ == StoreErrorView::Backend(m@),
{
}

/// A read that failed was the store's failure and changed nothing, and the inventory is what
/// the store holds.
pub proof fn a_failed_read_changes_nothing<S: BotStore>(
    before: Inventory<S>,
    e: StoreErrorView,
    after: Inventory<S>,
)
    ensures
        before.held() == before.store().held(),
        before.read_failed(e, &after) ==> before.store().load_error(e) && after.store()
            == before.store(),
{
}

/// A store in memory never fails.
pub proof fn memory_bot_stores_never_fail(store: MemoryBotStore, e: StoreErrorView)
    ensures
        !store.load_error(e),
        !store.save_error(e),
{
}

/// A fresh id is 36 characters long: hyphens at four places, the version and the variant at
/// two, and lower-case hexadecimal digits at all places but the hyphens.
pub proof fn fresh_ids_look_like_this(id: Seq<char>, i: int)
    requires
        is_uuid_v4(id),
        0 <= i < 36,
    ensures
        id.len() == 36,
        (i == 8 || i == 13 || i == 18 || i == 23) <==> id[i] == '-',
        id[i] == '-' || '0' <= id[i] <= '9' || 'a' <= id[i] <= 'f',
        id[14] == '4',
        id[19] == '8' || id[19] == '9' || id[19] == 'a' || id[19] == 'b',
{
    assert(i != 8 && i != 13 && i != 18 && i != 23 ==> is_hex(id[i]));
}

} // verus!
