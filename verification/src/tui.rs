//! `alberto tui`: the state of the interactive browser and how each key
//! changes it. Fetching, rendering and the terminal are done by the caller,
//! which performs the effect that a key asks for and reports its result.
use vstd::prelude::*;

use crate::json::{
    json_accepts, json_array_items, json_array_items_of, json_bool_field, json_bool_field_of,
    json_error, json_error_of, json_pretty, json_pretty_of, json_str_field, json_str_field_of,
};
use crate::pdf::{is_whitespace, is_ws, skip_ws};
use crate::text::{
    chars_of, concat2, concat3, decimal, decimal_text, opt_chars, owned, push_char, push_str,
};

verus! {

/// A node of the listing, with what the browser reads of its JSON.
pub struct NodeEntry {
    /// `unique_id` (empty when absent).
    pub unique_id: String,
    /// `name`, when it is a string.
    pub name: Option<String>,
    /// `content`: whether the node holds a document.
    pub content: bool,
    /// The node as indented JSON, for the detail pane.
    pub detail: String,
}

/// The entry read from the JSON text of one node.
pub open spec fn entry_of(text: Seq<char>, e: NodeEntry) -> bool {
    &&& e.unique_id@ == match json_str_field_of(text, "unique_id"@) {
        Some(u) => u,
        None => Seq::<char>::empty(),
    }
    &&& opt_chars(e.name) == json_str_field_of(text, "name"@)
    &&& e.content == match json_bool_field_of(text, "content"@) {
        Some(b) => b,
        None => false,
    }
    &&& e.detail@ == if json_accepts(text) {
        json_pretty_of(text)
    } else {
        Seq::<char>::empty()
    }
}

/// Reads a node from its JSON text.
pub fn node_entry(text: &str) -> (e: NodeEntry)
    ensures
        entry_of(text@, e),
{
    let unique_id = match json_str_field(text, "unique_id") {
        Some(u) => u,
        None => String::new(),
    };
    let name = json_str_field(text, "name");
    let content = match json_bool_field(text, "content") {
        Some(b) => b,
        None => false,
    };
    let detail = match json_pretty(text) {
        Some(d) => d,
        None => String::new(),
    };
    NodeEntry { unique_id, name, content, detail }
}

/// Why a listing could not be read.
pub enum ListError {
    /// The reply is not JSON: the parser's message.
    NotJson(String),
}

/// Reads a listing: a JSON array gives one node per element; any other
/// JSON value is a listing of that one node.
pub fn parse_list(json: &str) -> (r: Result<Vec<NodeEntry>, ListError>)
    ensures
        r is Ok == json_accepts(json@),
        r matches Err(ListError::NotJson(e)) ==> e@ == json_error_of(json@),
        r matches Ok(v) ==> match json_array_items_of(json@) {
            Some(items) => v@.len() == items.len() && forall|i: int|
                0 <= i < items.len() ==> entry_of(items[i], #[trigger] v@[i]),
            None => v@.len() == 1 && entry_of(json@, v@[0]),
        },
{
    if let Some(e) = json_error(json) {
        return Err(ListError::NotJson(e));
    }
    match json_array_items(json) {
        Some(items) => {
            let mut v: Vec<NodeEntry> = Vec::new();
            let mut i: usize = 0;
            while i < items.len()
                invariant
                    0 <= i <= items@.len(),
                    v@.len() == i,
                    forall|k: int| 0 <= k < i ==> entry_of(items@[k]@, #[trigger] v@[k]),
                decreases items@.len() - i,
            {
                v.push(node_entry(items[i].as_str()));
                i = i + 1;
            }
            Ok(v)
        },
        None => {
            let mut v: Vec<NodeEntry> = Vec::new();
            v.push(node_entry(json));
            Ok(v)
        },
    }
}

/// The reply to the document library request: the library's `unique_id`
/// (empty when it has none), or what went wrong.
pub fn doclib_reply(tenant: &str, ok: bool, error: &str, result_json: &str) -> (r: Result<
    String,
    String,
>)
    ensures
        !ok ==> (r matches Err(e) && e@ == "doclib de '"@ + tenant@ + "': "@ + error@),
        ok && !json_accepts(result_json@) ==> (r matches Err(e) && e@ == json_error_of(
            result_json@,
        )),
        ok && json_accepts(result_json@) ==> (r matches Ok(id) && id@ == match json_str_field_of(
            result_json@,
            "unique_id"@,
        ) {
            Some(u) => u,
            None => Seq::<char>::empty(),
        }),
{
    if !ok {
        let mut e = concat3("doclib de '", tenant, "': ");
        push_str(&mut e, error);
        return Err(e);
    }
    if let Some(e) = json_error(result_json) {
        return Err(e);
    }
    Ok(node_entry(result_json).unique_id)
}

/// The reply to a children request: the listing, or what went wrong.
pub fn children_reply(ok: bool, error: &str, result_json: &str) -> (r: Result<
    Vec<NodeEntry>,
    String,
>)
    ensures
        !ok ==> (r matches Err(e) && e@ == error@),
        ok && !json_accepts(result_json@) ==> (r matches Err(e) && e@ == json_error_of(
            result_json@,
        )),
        ok && json_accepts(result_json@) ==> (r matches Ok(v) && match json_array_items_of(
            result_json@,
        ) {
            Some(items) => v@.len() == items.len() && forall|i: int|
                0 <= i < items.len() ==> entry_of(items[i], #[trigger] v@[i]),
            None => v@.len() == 1 && entry_of(result_json@, v@[0]),
        }),
{
    if !ok {
        return Err(owned(error));
    }
    match parse_list(result_json) {
        Ok(v) => Ok(v),
        Err(ListError::NotJson(e)) => Err(e),
    }
}

/// The reply to a content request: the bytes, or the server's error.
pub fn content_reply(ok: bool, content: Vec<u8>, error: &str) -> (r: Result<Vec<u8>, String>)
    ensures
        ok ==> r == Ok::<Vec<u8>, String>(content),
        !ok ==> (r matches Err(e) && e@ == error@),
{
    if ok {
        Ok(content)
    } else {
        Err(owned(error))
    }
}

/// One level of the tree being browsed: a title, the node whose children it
/// lists, and those children, one of them selected when there is any.
pub struct Level {
    title: String,
    parent_id: String,
    nodes: Vec<NodeEntry>,
    selected: Option<usize>,
}

/// What a level holds, for contracts.
pub struct LevelView {
    pub title: Seq<char>,
    pub parent_id: Seq<char>,
    pub nodes: Seq<NodeEntry>,
    pub selected: Option<usize>,
}

impl View for Level {
    type V = LevelView;

    closed spec fn view(&self) -> LevelView {
        LevelView {
            title: self.title@,
            parent_id: self.parent_id@,
            nodes: self.nodes@,
            selected: self.selected,
        }
    }
}

/// The selection kept when a level's nodes are replaced by `n` others: the
/// same index, or the last node when the list got shorter; none when empty.
pub open spec fn clamped(selected: Option<usize>, n: nat) -> Option<usize> {
    if n == 0 {
        None
    } else {
        let cur: int = match selected {
            Some(i) => i as int,
            None => 0,
        };
        Some((if cur < n - 1 {
            cur
        } else {
            n - 1
        }) as usize)
    }
}

/// A level's selection points at one of its nodes; only an empty level has none.
pub open spec fn level_wf(l: LevelView) -> bool {
    match l.selected {
        Some(i) => i < l.nodes.len(),
        None => l.nodes.len() == 0,
    }
}

impl Level {
    #[verifier::type_invariant]
    closed spec fn selection_in_range(self) -> bool {
        level_wf(self@)
    }

    /// The title.
    pub fn title(&self) -> (t: &String)
        ensures
            t@ == self@.title,
    {
        &self.title
    }

    /// The id of the node whose children the level lists.
    pub fn parent_id(&self) -> (p: &String)
        ensures
            p@ == self@.parent_id,
    {
        &self.parent_id
    }

    /// The nodes.
    pub fn nodes(&self) -> (n: &Vec<NodeEntry>)
        ensures
            n@ == self@.nodes,
    {
        &self.nodes
    }

    /// The selected node's index.
    pub fn selected(&self) -> (i: Option<usize>)
        ensures
            i == self@.selected,
            level_wf(self@),
    {
        proof {
            use_type_invariant(self);
        }
        self.selected
    }

    /// The same level listing `nodes` in place of its nodes.
    fn with_nodes(self, nodes: Vec<NodeEntry>) -> (l: Level)
        ensures
            l@ == (LevelView {
                title: self@.title,
                parent_id: self@.parent_id,
                nodes: nodes@,
                selected: clamped(self@.selected, nodes@.len()),
            }),
    {
        let n = nodes.len();
        let selected = if n == 0 {
            None
        } else {
            let cur: usize = match self.selected {
                Some(i) => i,
                None => 0,
            };
            Some(
                if cur < n - 1 {
                    cur
                } else {
                    n - 1
                },
            )
        };
        Level { title: self.title, parent_id: self.parent_id, nodes, selected }
    }

    /// Moves the cursor one node down (`forward`) or up, wrapping around.
    fn move_sel(&mut self, forward: bool)
        ensures
            final(self)@.title == old(self)@.title,
            final(self)@.parent_id == old(self)@.parent_id,
            final(self)@.nodes == old(self)@.nodes,
            final(self)@.selected == moved(old(self)@.selected, old(self)@.nodes.len(), forward),
        no_unwind
    {
        proof {
            use_type_invariant(&*self);
        }
        let n = self.nodes.len();
        if n == 0 {
            return;
        }
        let cur: usize = match self.selected {
            Some(i) => i,
            None => 0,
        };
        let next: usize = if forward {
            if cur + 1 == n {
                0
            } else {
                cur + 1
            }
        } else {
            if cur == 0 {
                n - 1
            } else {
                cur - 1
            }
        };
        proof {
            if forward {
                if cur + 1 == n {
                    vstd::arithmetic::div_mod::lemma_mod_self_0(n as int);
                } else {
                    vstd::arithmetic::div_mod::lemma_small_mod((cur + 1) as nat, n as nat);
                }
            } else {
                if cur == 0 {
                    vstd::arithmetic::div_mod::lemma_small_mod((n - 1) as nat, n as nat);
                } else {
                    vstd::arithmetic::div_mod::lemma_mod_add_multiples_vanish(
                        (cur - 1) as int,
                        n as int,
                    );
                    vstd::arithmetic::div_mod::lemma_small_mod((cur - 1) as nat, n as nat);
                }
            }
        }
        self.selected = Some(next);
    }
}

/// A new level selects its first node, if it has one.
pub fn level(title: String, parent_id: String, nodes: Vec<NodeEntry>) -> (l: Level)
    ensures
        l@.title == title@,
        l@.parent_id == parent_id@,
        l@.nodes == nodes@,
        l@.selected == if nodes@.len() > 0 {
            Some(0usize)
        } else {
            None
        },
{
    let selected = if nodes.len() > 0 {
        Some(0)
    } else {
        None
    };
    Level { title, parent_id, nodes, selected }
}

/// The PDF being previewed.
pub struct PreviewState {
    pub name: String,
    pub total_pages: usize,
    pub page: usize,
}

/// A key, as the browser distinguishes them.
#[derive(Clone, Copy, PartialEq, Eq, Structural, Debug)]
pub enum Key {
    Char(char),
    Up,
    Down,
    Left,
    Right,
    Enter,
    Backspace,
    Esc,
    Other,
}

/// What the caller must do after a key.
pub enum Effect {
    /// Nothing more.
    Nothing,
    /// Leave the browser.
    Quit,
    /// Fetch the children of a node, then call `children_loaded`.
    FetchChildren { id: String, name: String },
    /// Fetch the children of the node `id` again, then call `refreshed`.
    Refresh { id: String },
    /// Fetch a node's content and build its preview, then call `preview_loaded`.
    LoadPreview { id: String, name: String },
    /// Render another page of the preview, then call `page_rendered`.
    RenderPage { page: usize },
    /// Fetch a node's content and write it to the file `name` in the current
    /// directory, then call `download_done` with that file's absolute path.
    Download { id: String, name: String },
}

/// Why a download failed.
pub enum DownloadFailure {
    /// The content could not be fetched.
    Fetch(String),
    /// The file could not be written.
    Write(String),
}

/// The help shown in the status bar when the browser starts.
pub const START_STATUS: &'static str = "↑↓ mover · Enter entrar/preview · Backspace subir · p preview · d descargar · r refrescar · q salir";

/// The state of the browser.
pub struct TuiApp {
    root: Level,
    stack: Vec<Level>,
    preview: Option<PreviewState>,
    status: String,
}

/// The status line of a preview showing `page` of `total`.
pub open spec fn page_status(name: Seq<char>, page: nat, total: nat) -> Seq<char> {
    name + " — página "@ + decimal(page) + "/"@ + decimal(total) + " · ←→ páginas · Esc cerrar"@
}

/// The name of a node, or `default` when it has none.
pub open spec fn name_or(e: NodeEntry, default: Seq<char>) -> Seq<char> {
    match e.name {
        Some(n) => n@,
        None => default,
    }
}

/// The selection after moving one step down (`forward`) or up, wrapping around.
pub open spec fn moved(selected: Option<usize>, n: nat, forward: bool) -> Option<usize> {
    if n == 0 {
        selected
    } else {
        let cur: int = match selected {
            Some(i) => i as int,
            None => 0,
        };
        if forward {
            Some(((cur + 1) % (n as int)) as usize)
        } else {
            Some(((cur + n - 1) % (n as int)) as usize)
        }
    }
}

/// A preview shows a page from 1 on, within the page count when that is known.
pub open spec fn preview_wf(p: Option<PreviewState>) -> bool {
    match p {
        Some(p) => p.page >= 1 && (p.page <= p.total_pages || p.page == 1),
        None => true,
    }
}

impl TuiApp {
    #[verifier::type_invariant]
    closed spec fn inv(self) -> bool {
        preview_wf(self.preview)
    }

    /// The levels, from the root to the one shown.
    pub closed spec fn levels(self) -> Seq<LevelView> {
        seq![self.root@] + self.stack@.map_values(|l: Level| l@)
    }

    /// The preview, when one is open.
    pub closed spec fn preview(self) -> Option<PreviewState> {
        self.preview
    }

    /// The status line.
    pub closed spec fn status(self) -> Seq<char> {
        self.status@
    }

    /// The level shown.
    pub open spec fn top(self) -> LevelView {
        self.levels().last()
    }

    /// The node under the cursor, if any.
    pub open spec fn current(self) -> Option<NodeEntry> {
        match self.top().selected {
            Some(i) => Some(self.top().nodes[i as int]),
            None => None,
        }
    }

    proof fn lemma_levels(self)
        ensures
            self.levels().len() == self.stack@.len() + 1,
            self.levels()[0] == self.root@,
            forall|i: int| 0 <= i < self.stack@.len() ==> self.levels()[i + 1] == (
            #[trigger] self.stack@[i])@,
    {
    }

    /// The browser at the document library `doclib_id` of `tenant`, listing `nodes`.
    pub fn new(tenant: &str, doclib_id: &str, nodes: Vec<NodeEntry>) -> (app: TuiApp)
        ensures
            app.levels().len() == 1,
            app.top().title == "doclib "@ + tenant@,
            app.top().parent_id == doclib_id@,
            app.top().nodes == nodes@,
            app.top().selected == if nodes@.len() > 0 {
                Some(0usize)
            } else {
                None
            },
            app.preview() is None,
            app.status() == START_STATUS@,
    {
        let app = TuiApp {
            root: level(concat2("doclib ", tenant), owned(doclib_id), nodes),
            stack: Vec::new(),
            preview: None,
            status: owned(START_STATUS),
        };
        proof {
            app.lemma_levels();
        }
        app
    }

    /// Number of levels opened below the root.
    pub fn depth(&self) -> (n: usize)
        ensures
            n + 1 == self.levels().len(),
    {
        proof {
            self.lemma_levels();
        }
        self.stack.len()
    }

    /// The `i`-th level, from the root.
    pub fn level_at(&self, i: usize) -> (l: &Level)
        requires
            i < self.levels().len(),
        ensures
            l@ == self.levels()[i as int],
    {
        proof {
            self.lemma_levels();
        }
        if i == 0 {
            &self.root
        } else {
            &self.stack[i - 1]
        }
    }

    /// The level shown.
    pub fn top_level(&self) -> (l: &Level)
        ensures
            l@ == self.top(),
    {
        proof {
            self.lemma_levels();
        }
        let n = self.stack.len();
        if n == 0 {
            &self.root
        } else {
            &self.stack[n - 1]
        }
    }

    /// The preview, when one is open.
    pub fn preview_state(&self) -> (p: &Option<PreviewState>)
        ensures
            *p == self.preview(),
            preview_wf(*p),
    {
        proof {
            use_type_invariant(self);
        }
        &self.preview
    }

    /// The status line.
    pub fn status_text(&self) -> (s: &String)
        ensures
            s@ == self.status(),
    {
        &self.status
    }

    /// The node under the cursor, if any.
    pub fn current_node(&self) -> (r: Option<&NodeEntry>)
        ensures
            match self.current() {
                Some(e) => r matches Some(x) && *x == e,
                None => r is None,
            },
    {
        let top = self.top_level();
        match top.selected() {
            Some(i) => Some(&top.nodes()[i]),
            None => None,
        }
    }

    fn set_status(&mut self, s: String)
        ensures
            final(self).status() == s@,
            final(self).levels() == old(self).levels(),
            final(self).preview() == old(self).preview(),
    {
        proof {
            use_type_invariant(&*self);
        }
        self.status = s;
    }

    /// Moves the cursor of the level shown one node down (`forward`) or up.
    fn move_sel(&mut self, forward: bool)
        ensures
            final(self).levels().len() == old(self).levels().len(),
            final(self).levels().drop_last() == old(self).levels().drop_last(),
            final(self).top().title == old(self).top().title,
            final(self).top().nodes == old(self).top().nodes,
            final(self).top().selected == moved(
                old(self).top().selected,
                old(self).top().nodes.len(),
                forward,
            ),
            final(self).preview() == old(self).preview(),
            final(self).status() == old(self).status(),
    {
        proof {
            use_type_invariant(&*self);
            self.lemma_levels();
        }
        let ghost before = self.levels();
        if self.stack.len() == 0 {
            self.root.move_sel(forward);
            proof {
                self.lemma_levels();
                assert(self.levels().drop_last() =~= before.drop_last());
            }
        } else {
            let mut stack: Vec<Level> = Vec::new();
            std::mem::swap(&mut stack, &mut self.stack);
            let mut l = stack.pop().unwrap();
            l.move_sel(forward);
            stack.push(l);
            self.stack = stack;
            proof {
                self.lemma_levels();
                assert(self.levels().drop_last() =~= before.drop_last());
            }
        }
    }

    /// Goes back to the parent level, unless the root is shown.
    fn go_up(&mut self)
        ensures
            final(self).levels() == if old(self).levels().len() > 1 {
                old(self).levels().drop_last()
            } else {
                old(self).levels()
            },
            final(self).preview() == old(self).preview(),
            final(self).status() == old(self).status(),
    {
        proof {
            use_type_invariant(&*self);
            self.lemma_levels();
        }
        let ghost before = self.levels();
        if self.stack.len() > 0 {
            let mut stack: Vec<Level> = Vec::new();
            std::mem::swap(&mut stack, &mut self.stack);
            stack.pop();
            self.stack = stack;
            proof {
                self.lemma_levels();
                assert(self.levels() =~= before.drop_last());
            }
        }
    }

    /// Opens a new level below the one shown.
    fn push_level(&mut self, l: Level)
        ensures
            final(self).levels() == old(self).levels().push(l@),
            final(self).preview() == old(self).preview(),
            final(self).status() == old(self).status(),
    {
        proof {
            use_type_invariant(&*self);
            self.lemma_levels();
        }
        let ghost before = self.levels();
        let mut stack: Vec<Level> = Vec::new();
        std::mem::swap(&mut stack, &mut self.stack);
        stack.push(l);
        self.stack = stack;
        proof {
            self.lemma_levels();
            assert(self.levels() =~= before.push(l@));
        }
    }

    /// Opens the preview of the node under the cursor, if it has content.
    fn open_preview(&mut self) -> (eff: Effect)
        ensures
            final(self).levels() == old(self).levels(),
            final(self).preview() == old(self).preview(),
            match old(self).current() {
                None => eff is Nothing && final(self).status() == old(self).status(),
                Some(e) => if !e.content {
                    eff is Nothing && final(self).status() == "el nodo no tiene contenido"@
                } else {
                    eff matches Effect::LoadPreview { id, name } && id == e.unique_id && name@
                        == name_or(e, "documento"@) && final(self).status() == "descargando "@
                        + name_or(e, "documento"@) + "..."@
                },
            },
    {
        let (id, name) = match self.current_node() {
            None => {
                return Effect::Nothing;
            },
            Some(node) => {
                if !node.content {
                    self.set_status(owned("el nodo no tiene contenido"));
                    return Effect::Nothing;
                }
                let name = match &node.name {
                    Some(n) => n.clone(),
                    None => owned("documento"),
                };
                (node.unique_id.clone(), name)
            },
        };
        self.set_status(concat3("descargando ", name.as_str(), "..."));
        Effect::LoadPreview { id, name }
    }

    /// Handles a key event; `pressed` is false for releases and repeats,
    /// which are ignored.
    pub fn handle_key(&mut self, key: Key, pressed: bool) -> (eff: Effect)
        ensures
            key_step(*old(self), key, pressed, *final(self), eff),
    {
        proof {
            use_type_invariant(&*self);
        }
        if !pressed {
            return Effect::Nothing;
        }
        if self.preview.is_some() {
            match key {
                Key::Esc | Key::Char('q') => {
                    self.preview = None;
                    Effect::Nothing
                },
                Key::Left => self.page_request(false),
                Key::Right => self.page_request(true),
                _ => Effect::Nothing,
            }
        } else {
            match key {
                Key::Char('q') | Key::Esc => Effect::Quit,
                Key::Up => {
                    self.move_sel(false);
                    Effect::Nothing
                },
                Key::Down => {
                    self.move_sel(true);
                    Effect::Nothing
                },
                Key::Backspace | Key::Left => {
                    self.go_up();
                    Effect::Nothing
                },
                Key::Enter | Key::Right => self.enter(),
                Key::Char('p') => self.open_preview(),
                Key::Char('d') => self.download_request(),
                Key::Char('r') => {
                    let id = self.top_level().parent_id().clone();
                    Effect::Refresh { id }
                },
                _ => Effect::Nothing,
            }
        }
    }

    /// Enter: a document opens its preview, anything else is opened as a folder.
    fn enter(&mut self) -> (eff: Effect)
        ensures
            final(self).levels() == old(self).levels(),
            final(self).preview() == old(self).preview(),
            match old(self).current() {
                None => eff is Nothing && final(self).status() == old(self).status(),
                Some(e) => if e.content {
                    eff matches Effect::LoadPreview { id, name } && id == e.unique_id && name@
                        == name_or(e, "documento"@) && final(self).status() == "descargando "@
                        + name_or(e, "documento"@) + "..."@
                } else {
                    eff matches Effect::FetchChildren { id, name } && id == e.unique_id && name@
                        == name_or(e, "?"@) && final(self).status() == old(self).status()
                },
            },
    {
        let (id, name) = match self.current_node() {
            None => {
                return Effect::Nothing;
            },
            Some(node) => {
                if node.content {
                    return self.open_preview();
                }
                let name = match &node.name {
                    Some(n) => n.clone(),
                    None => owned("?"),
                };
                (node.unique_id.clone(), name)
            },
        };
        Effect::FetchChildren { id, name }
    }

    /// `d`: asks for the download of the node under the cursor.
    fn download_request(&mut self) -> (eff: Effect)
        ensures
            final(self).levels() == old(self).levels(),
            final(self).preview() == old(self).preview(),
            match old(self).current() {
                None => eff is Nothing && final(self).status() == old(self).status(),
                Some(e) => if !e.content {
                    eff is Nothing && final(self).status() == "el nodo no tiene contenido"@
                } else {
                    eff matches Effect::Download { id, name } && id == e.unique_id && name@
                        == sanitized(name_or(e, "descarga.bin"@)) && final(self).status() == old(
                        self,
                    ).status()
                },
            },
    {
        let (id, name) = match self.current_node() {
            None => {
                return Effect::Nothing;
            },
            Some(node) => {
                if !node.content {
                    self.set_status(owned("el nodo no tiene contenido"));
                    return Effect::Nothing;
                }
                let name = match &node.name {
                    Some(n) => sanitize_filename(n.as_str()),
                    None => sanitize_filename("descarga.bin"),
                };
                (node.unique_id.clone(), name)
            },
        };
        Effect::Download { id, name }
    }

    /// `←`/`→` in a preview: asks for the previous or next page, if there is one.
    fn page_request(&self, forward: bool) -> (eff: Effect)
        ensures
            match self.preview() {
                None => eff is Nothing,
                Some(p) => {
                    let next: int = if forward {
                        p.page + 1
                    } else {
                        p.page - 1
                    };
                    if 1 <= next <= p.total_pages {
                        eff matches Effect::RenderPage { page } && page == next
                    } else {
                        eff is Nothing
                    }
                },
            },
    {
        proof {
            use_type_invariant(self);
        }
        match &self.preview {
            None => Effect::Nothing,
            Some(p) => {
                if forward {
                    if p.page < p.total_pages {
                        Effect::RenderPage { page: p.page + 1 }
                    } else {
                        Effect::Nothing
                    }
                } else {
                    if p.page > 1 && p.page - 1 <= p.total_pages {
                        Effect::RenderPage { page: p.page - 1 }
                    } else {
                        Effect::Nothing
                    }
                }
            },
        }
    }

    /// Reports the children fetched for the node `id`, named `name`.
    pub fn children_loaded(
        &mut self,
        id: String,
        name: String,
        result: Result<Vec<NodeEntry>, String>,
    )
        ensures
            final(self).preview() == old(self).preview(),
            match result {
                Ok(nodes) => if nodes@.len() == 0 {
                    final(self).levels() == old(self).levels() && final(self).status() == name@
                        + ": sin hijos"@
                } else {
                    final(self).levels() == old(self).levels().push(
                        LevelView {
                            title: name@,
                            parent_id: id@,
                            nodes: nodes@,
                            selected: Some(0usize),
                        },
                    ) && final(self).status() == name@ + ": "@ + decimal(nodes@.len())
                        + " hijos"@
                },
                Err(e) => final(self).levels() == old(self).levels() && final(self).status()
                    == "error: "@ + e@,
            },
    {
        match result {
            Ok(nodes) => {
                if nodes.len() == 0 {
                    self.set_status(concat2(name.as_str(), ": sin hijos"));
                } else {
                    let mut s = concat2(name.as_str(), ": ");
                    let n = decimal_text(nodes.len());
                    push_str(&mut s, n.as_str());
                    push_str(&mut s, " hijos");
                    self.set_status(s);
                    self.push_level(level(name, id, nodes));
                }
            },
            Err(e) => {
                self.set_status(concat2("error: ", e.as_str()));
            },
        }
    }

    /// Reports the children fetched again for the level shown: they replace
    /// its nodes, keeping the selection where the new list allows; an error
    /// only changes the status.
    pub fn refreshed(&mut self, result: Result<Vec<NodeEntry>, String>)
        ensures
            final(self).preview() == old(self).preview(),
            match result {
                Ok(nodes) => {
                    &&& final(self).levels().len() == old(self).levels().len()
                    &&& final(self).levels().drop_last() == old(self).levels().drop_last()
                    &&& final(self).top() == (LevelView {
                        title: old(self).top().title,
                        parent_id: old(self).top().parent_id,
                        nodes: nodes@,
                        selected: clamped(old(self).top().selected, nodes@.len()),
                    })
                    &&& final(self).status() == "refrescado: "@ + decimal(nodes@.len())
                        + " elementos"@
                },
                Err(e) => final(self).levels() == old(self).levels() && final(self).status()
                    == "refresh: "@ + e@,
            },
    {
        match result {
            Ok(nodes) => {
                let mut s = owned("refrescado: ");
                let n = decimal_text(nodes.len());
                push_str(&mut s, n.as_str());
                push_str(&mut s, " elementos");
                self.set_status(s);
                self.replace_top_nodes(nodes);
            },
            Err(e) => {
                self.set_status(concat2("refresh: ", e.as_str()));
            },
        }
    }

    /// Replaces the nodes of the level shown.
    fn replace_top_nodes(&mut self, nodes: Vec<NodeEntry>)
        ensures
            final(self).levels().len() == old(self).levels().len(),
            final(self).levels().drop_last() == old(self).levels().drop_last(),
            final(self).top() == (LevelView {
                title: old(self).top().title,
                parent_id: old(self).top().parent_id,
                nodes: nodes@,
                selected: clamped(old(self).top().selected, nodes@.len()),
            }),
            final(self).preview() == old(self).preview(),
            final(self).status() == old(self).status(),
    {
        proof {
            use_type_invariant(&*self);
            self.lemma_levels();
        }
        let ghost before = self.levels();
        if self.stack.len() == 0 {
            let mut root = level(String::new(), String::new(), Vec::new());
            std::mem::swap(&mut root, &mut self.root);
            self.root = root.with_nodes(nodes);
            proof {
                self.lemma_levels();
                assert(self.levels().drop_last() =~= before.drop_last());
            }
        } else {
            let mut stack: Vec<Level> = Vec::new();
            std::mem::swap(&mut stack, &mut self.stack);
            let l = stack.pop().unwrap();
            stack.push(l.with_nodes(nodes));
            self.stack = stack;
            proof {
                self.lemma_levels();
                assert(self.levels().drop_last() =~= before.drop_last());
            }
        }
    }

    /// Reports the preview built for the document `name`: its page count, or why it failed.
    pub fn preview_loaded(&mut self, name: String, result: Result<usize, String>)
        ensures
            final(self).levels() == old(self).levels(),
            match result {
                Ok(total) => final(self).preview() == Some(
                    PreviewState { name, total_pages: total, page: 1 },
                ) && final(self).status() == page_status(name@, 1, total as nat),
                Err(e) => final(self).preview() == old(self).preview() && final(self).status()
                    == "preview: "@ + e@,
            },
    {
        proof {
            use_type_invariant(&*self);
        }
        match result {
            Ok(total) => {
                let one = decimal_text(1);
                let t = decimal_text(total);
                let mut s = concat3(name.as_str(), " — página ", one.as_str());
                push_str(&mut s, "/");
                push_str(&mut s, t.as_str());
                push_str(&mut s, " · ←→ páginas · Esc cerrar");
                self.status = s;
                self.preview = Some(PreviewState { name, total_pages: total, page: 1 });
            },
            Err(e) => {
                self.set_status(concat2("preview: ", e.as_str()));
            },
        }
    }

    /// Reports the rendering of `page` of the preview; a page out of range,
    /// or no preview, leaves everything as it was.
    pub fn page_rendered(&mut self, page: usize, result: Result<(), String>)
        ensures
            final(self).levels() == old(self).levels(),
            match old(self).preview() {
                Some(p) if 1 <= page <= p.total_pages => match result {
                    Ok(()) => final(self).preview() == Some(
                        PreviewState { name: p.name, total_pages: p.total_pages, page },
                    ) && final(self).status() == page_status(
                        p.name@,
                        page as nat,
                        p.total_pages as nat,
                    ),
                    Err(e) => final(self).preview() == old(self).preview() && final(self).status()
                        == "página: "@ + e@,
                },
                _ => final(self).preview() == old(self).preview() && final(self).status() == old(
                    self,
                ).status(),
            },
    {
        proof {
            use_type_invariant(&*self);
        }
        let mut preview: Option<PreviewState> = None;
        std::mem::swap(&mut preview, &mut self.preview);
        match preview {
            Some(mut p) => {
                if 1 <= page && page <= p.total_pages {
                    match result {
                        Ok(()) => {
                            let pg = decimal_text(page);
                            let t = decimal_text(p.total_pages);
                            let mut s = concat3(p.name.as_str(), " — página ", pg.as_str());
                            push_str(&mut s, "/");
                            push_str(&mut s, t.as_str());
                            push_str(&mut s, " · ←→ páginas · Esc cerrar");
                            self.status = s;
                            p.page = page;
                        },
                        Err(e) => {
                            self.status = concat2("página: ", e.as_str());
                        },
                    }
                }
                self.preview = Some(p);
            },
            None => {},
        }
    }

    /// Reports the download of the document written to `path`, the absolute
    /// path of the file in the current directory.
    pub fn download_done(&mut self, path: &str, result: Result<usize, DownloadFailure>)
        ensures
            final(self).levels() == old(self).levels(),
            final(self).preview() == old(self).preview(),
            final(self).status() == match result {
                Ok(size) => "descargado "@ + path@ + " ("@ + decimal(size as nat) + " bytes)"@,
                Err(DownloadFailure::Fetch(e)) => "download: "@ + e@,
                Err(DownloadFailure::Write(e)) => "error escribiendo "@ + path@ + ": "@ + e@,
            },
    {
        let s = match result {
            Ok(size) => {
                let mut s = concat3("descargado ", path, " (");
                let n = decimal_text(size);
                push_str(&mut s, n.as_str());
                push_str(&mut s, " bytes)");
                s
            },
            Err(DownloadFailure::Fetch(e)) => concat2("download: ", e.as_str()),
            Err(DownloadFailure::Write(e)) => {
                let mut s = concat3("error escribiendo ", path, ": ");
                push_str(&mut s, e.as_str());
                s
            },
        };
        self.set_status(s);
    }
}

/// A path separator or NUL becomes `_` in a file name.
pub open spec fn safe_char(c: char) -> char {
    if is_separator(c) {
        '_'
    } else {
        c
    }
}

/// First index at or after `i` that is not a `.`, else the length.
pub open spec fn skip_dots(s: Seq<char>, i: int) -> int
    decreases s.len() - i,
{
    if i >= s.len() {
        s.len() as int
    } else if s[i] == '.' {
        skip_dots(s, i + 1)
    } else {
        i
    }
}

/// The end of `s[lo..j]` once its trailing whitespace is dropped.
pub open spec fn trim_end_at(s: Seq<char>, lo: int, j: int) -> int
    decreases j - lo,
{
    if j <= lo {
        lo
    } else if is_ws(s[j - 1]) {
        trim_end_at(s, lo, j - 1)
    } else {
        j
    }
}

/// The name under which a download is written: separators and NUL become
/// `_`, then leading dots and surrounding whitespace are dropped; what is
/// left, or `descarga.bin` when nothing is.
pub open spec fn sanitized(name: Seq<char>) -> Seq<char> {
    let m = name.map_values(|c: char| safe_char(c));
    let a = skip_ws(m, skip_dots(m, 0));
    let b = trim_end_at(m, a, m.len() as int);
    if b <= a {
        "descarga.bin"@
    } else {
        m.subrange(a, b)
    }
}

proof fn lemma_skip_dots(s: Seq<char>, i: int)
    requires
        0 <= i <= s.len(),
    ensures
        i <= skip_dots(s, i) <= s.len(),
        skip_dots(s, i) < s.len() ==> s[skip_dots(s, i)] != '.',
    decreases s.len() - i,
{
    if i < s.len() && s[i] == '.' {
        lemma_skip_dots(s, i + 1);
    }
}

proof fn lemma_skip_ws_bounds(s: Seq<char>, i: int)
    requires
        0 <= i <= s.len(),
    ensures
        i <= skip_ws(s, i) <= s.len(),
    decreases s.len() - i,
{
    if i < s.len() && is_ws(s[i]) {
        lemma_skip_ws_bounds(s, i + 1);
    }
}

proof fn lemma_trim_end_bounds(s: Seq<char>, lo: int, j: int)
    requires
        lo <= j,
    ensures
        lo <= trim_end_at(s, lo, j) <= j,
    decreases j - lo,
{
    if j > lo && is_ws(s[j - 1]) {
        lemma_trim_end_bounds(s, lo, j - 1);
    }
}

/// A path separator or NUL.
pub open spec fn is_separator(c: char) -> bool {
    c == '/' || c == '\\' || c == '\0'
}

/// A sanitized name is never empty and holds no path separator or NUL, so
/// the file is written in the directory it is joined to; when the name holds
/// no whitespace, it does not start with a dot either.
pub proof fn law_sanitized_name_stays_in_directory(name: Seq<char>)
    ensures
        sanitized(name).len() > 0,
        forall|k: int| 0 <= k < sanitized(name).len() ==> !is_separator(#[trigger] sanitized(name)[k]),
        (forall|k: int| 0 <= k < name.len() ==> !is_ws(#[trigger] name[k])) ==> sanitized(name)[0]
            != '.',
{
    reveal_strlit("descarga.bin");
    let m = name.map_values(|c: char| safe_char(c));
    lemma_skip_dots(m, 0);
    let d = skip_dots(m, 0);
    lemma_skip_ws_bounds(m, d);
    let a = skip_ws(m, d);
    lemma_trim_end_bounds(m, a, m.len() as int);
    let b = trim_end_at(m, a, m.len() as int);
    if b > a {
        assert forall|k: int| 0 <= k < sanitized(name).len() implies !is_separator(
            #[trigger] sanitized(name)[k],
        ) by {
            assert(sanitized(name)[k] == safe_char(name[a + k]));
        }
        if forall|k: int| 0 <= k < name.len() ==> !is_ws(#[trigger] name[k]) {
            assert(!is_ws(m[d]));
            assert(a == d);
        }
    }
}

/// A file name that stays in the directory it is written to.
pub fn sanitize_filename(name: &str) -> (r: String)
    ensures
        r@ == sanitized(name@),
{
    let cs = chars_of(name);
    let mut m: Vec<char> = Vec::new();
    let mut i: usize = 0;
    while i < cs.len()
        invariant
            0 <= i <= cs@.len(),
            cs@ == name@,
            m@.len() == i,
            forall|k: int| 0 <= k < i ==> m@[k] == safe_char(#[trigger] cs@[k]),
        decreases cs@.len() - i,
    {
        let c = cs[i];
        let d = if c == '/' || c == '\\' || c == '\0' {
            '_'
        } else {
            c
        };
        m.push(d);
        i = i + 1;
    }
    let ghost ms = name@.map_values(|c: char| safe_char(c));
    assert(m@ =~= ms);
    let mut a: usize = 0;
    while a < m.len() && m[a] == '.'
        invariant
            0 <= a <= m@.len(),
            m@ == ms,
            skip_dots(ms, 0) == skip_dots(ms, a as int),
        decreases m@.len() - a,
    {
        a = a + 1;
    }
    let ghost a0 = a as int;
    while a < m.len() && is_whitespace(m[a])
        invariant
            a0 <= a <= m@.len(),
            m@ == ms,
            skip_dots(ms, 0) == a0,
            skip_ws(ms, a0) == skip_ws(ms, a as int),
        decreases m@.len() - a,
    {
        a = a + 1;
    }
    let mut b: usize = m.len();
    while b > a && is_whitespace(m[b - 1])
        invariant
            a <= b <= m@.len(),
            m@ == ms,
            trim_end_at(ms, a as int, ms.len() as int) == trim_end_at(ms, a as int, b as int),
        decreases b - a,
    {
        b = b - 1;
    }
    if b <= a {
        return owned("descarga.bin");
    }
    let mut r = String::new();
    let mut j: usize = a;
    while j < b
        invariant
            a <= j <= b <= m@.len(),
            m@ == ms,
            r@ == ms.subrange(a as int, j as int),
        decreases b - j,
    {
        push_char(&mut r, m[j]);
        assert(ms.subrange(a as int, j + 1) =~= ms.subrange(a as int, j as int).push(ms[j as int]));
        j = j + 1;
    }
    r
}

/// The titles of the levels joined by ` / `.
pub open spec fn joined_titles(levels: Seq<LevelView>) -> Seq<char>
    decreases levels.len(),
{
    if levels.len() == 0 {
        Seq::<char>::empty()
    } else if levels.len() == 1 {
        levels[0].title
    } else {
        joined_titles(levels.drop_last()) + " / "@ + levels.last().title
    }
}

/// The label of a node in the list: an icon for documents or folders, then its name.
pub open spec fn item_label_of(e: NodeEntry) -> Seq<char> {
    (if e.content {
        "📄"@
    } else {
        "📁"@
    }) + " "@ + name_or(e, "?"@)
}

/// The label of a node in the list.
pub fn item_label(e: &NodeEntry) -> (r: String)
    ensures
        r@ == item_label_of(*e),
{
    let icon: &str = if e.content {
        "📄"
    } else {
        "📁"
    };
    let name: &str = match &e.name {
        Some(n) => n.as_str(),
        None => "?",
    };
    concat3(icon, " ", name)
}

/// The title of the preview pane.
pub fn preview_title(p: &PreviewState) -> (r: String)
    ensures
        r@ == " 📄 "@ + p.name@ + " — pág "@ + decimal(p.page as nat) + "/"@ + decimal(
            p.total_pages as nat,
        ) + " "@,
{
    let mut r = concat3(" 📄 ", p.name.as_str(), " — pág ");
    let pg = decimal_text(p.page);
    push_str(&mut r, pg.as_str());
    push_str(&mut r, "/");
    let t = decimal_text(p.total_pages);
    push_str(&mut r, t.as_str());
    push_str(&mut r, " ");
    r
}

impl TuiApp {
    /// The path of levels shown above the list: their titles joined by ` / `.
    pub fn breadcrumb(&self) -> (r: String)
        ensures
            r@ == joined_titles(self.levels()),
    {
        let n = self.depth();
        let mut r = self.level_at(0).title().clone();
        let mut j: usize = 0;
        assert(self.levels().take(1) =~= seq![self.levels()[0]]);
        while j < n
            invariant
                0 <= j <= n,
                n + 1 == self.levels().len(),
                r@ == joined_titles(self.levels().take(j + 1)),
            decreases n - j,
        {
            let l = self.level_at(j + 1);
            push_str(&mut r, " / ");
            push_str(&mut r, l.title().as_str());
            assert(self.levels().take(j + 2).drop_last() =~= self.levels().take(j + 1));
            j = j + 1;
        }
        assert(self.levels().take(n + 1) =~= self.levels());
        r
    }

    /// The text of the detail pane: the node under the cursor as indented
    /// JSON, or `(vacío)`.
    pub fn detail_text(&self) -> (r: String)
        ensures
            r@ == match self.current() {
                Some(e) => e.detail@,
                None => "(vacío)"@,
            },
    {
        match self.current_node() {
            Some(e) => e.detail.clone(),
            None => owned("(vacío)"),
        }
    }
}

/// Refreshing a level with the list it already shows keeps its selection.
pub proof fn law_refresh_unchanged_keeps_selection(l: LevelView)
    requires
        level_wf(l),
    ensures
        clamped(l.selected, l.nodes.len()) == l.selected,
{
}

/// The browser never runs out of levels: the root stays.
pub proof fn law_root_level_stays(app: TuiApp)
    ensures
        app.levels().len() >= 1,
{
    app.lemma_levels();
}

/// Moving the cursor down and then up comes back to the same node.
pub proof fn law_down_then_up(selected: usize, n: nat)
    requires
        selected < n <= usize::MAX,
    ensures
        moved(moved(Some(selected), n, true), n, false) == Some(selected),
{
    let a = (selected + 1) % (n as int);
    if selected + 1 == n {
        vstd::arithmetic::div_mod::lemma_mod_self_0(n as int);
        assert(a == 0);
        vstd::arithmetic::div_mod::lemma_small_mod((n - 1) as nat, n as nat);
        assert(moved(Some(selected), n, true) == Some(0usize));
        assert((0 + n - 1) % (n as int) == selected);
    } else {
        vstd::arithmetic::div_mod::lemma_small_mod((selected + 1) as nat, n as nat);
        assert(a == selected + 1);
        assert(moved(Some(selected), n, true) == Some((selected + 1) as usize));
        vstd::arithmetic::div_mod::lemma_mod_add_multiples_vanish(selected as int, n as int);
        vstd::arithmetic::div_mod::lemma_small_mod(selected as nat, n as nat);
        assert((selected + 1 + n - 1) % (n as int) == selected);
    }
}

/// In the list, `p` on a document asks for the same preview as Enter does:
/// both load the node under the cursor, by its id and name, and say so in
/// the status line; on a node without content `p` only says so.
pub proof fn law_p_previews_like_enter(
    old: TuiApp,
    new_p: TuiApp,
    eff_p: Effect,
    new_enter: TuiApp,
    eff_enter: Effect,
)
    requires
        old.preview() is None,
        key_step(old, Key::Char('p'), true, new_p, eff_p),
        key_step(old, Key::Enter, true, new_enter, eff_enter),
    ensures
        match old.current() {
            Some(e) => if e.content {
                &&& eff_p matches Effect::LoadPreview { id, name } && id == e.unique_id && name@
                    == name_or(e, "documento"@)
                &&& eff_enter matches Effect::LoadPreview { id, name } && id == e.unique_id
                    && name@ == name_or(e, "documento"@)
                &&& new_p.status() == new_enter.status()
                &&& new_p.status() == "descargando "@ + name_or(e, "documento"@) + "..."@
                &&& new_p.levels() == old.levels()
            } else {
                eff_p is Nothing && new_p.status() == "el nodo no tiene contenido"@
            },
            None => eff_p is Nothing && eff_enter is Nothing,
        },
{
}

/// In the list, the other keys that act do so on what is shown: `d` asks to
/// download the document under the cursor, by its id and under its cleaned
/// name; Enter on a folder asks for its children; `r` asks for the children
/// of the level shown again; `q` leaves. None of them changes the levels.
pub proof fn law_keys_act_on_what_is_shown(old: TuiApp, key: Key, new: TuiApp, eff: Effect)
    requires
        old.preview() is None,
        key_step(old, key, true, new, eff),
    ensures
        key == Key::Char('d') ==> new.levels() == old.levels() && match old.current() {
            Some(e) => if e.content {
                eff matches Effect::Download { id, name } && id == e.unique_id && name@
                    == sanitized(name_or(e, "descarga.bin"@))
            } else {
                eff is Nothing
            },
            None => eff is Nothing,
        },
        key == Key::Enter ==> new.levels() == old.levels() && match old.current() {
            Some(e) => !e.content ==> (eff matches Effect::FetchChildren { id, .. } && id
                == e.unique_id),
            None => eff is Nothing,
        },
        key == Key::Char('r') ==> new == old && (eff matches Effect::Refresh { id } && id@
            == old.top().parent_id),
        key == Key::Char('q') ==> new == old && eff is Quit,
{
}

/// In the list, ↓ selects the next node and ↑ the previous one, wrapping
/// around at either end; Backspace goes back to the parent level, and the
/// root level stays.
pub proof fn law_arrows_move_the_cursor(old: TuiApp, key: Key, new: TuiApp, eff: Effect)
    requires
        old.preview() is None,
        level_wf(old.top()),
        key_step(old, key, true, new, eff),
    ensures
        key == Key::Down ==> match old.top().selected {
            Some(i) => new.top().selected == Some(
                if i + 1 < old.top().nodes.len() {
                    (i + 1) as usize
                } else {
                    0usize
                },
            ),
            None => new.top().selected is None,
        },
        key == Key::Up ==> match old.top().selected {
            Some(i) => new.top().selected == Some(
                if i > 0 {
                    (i - 1) as usize
                } else {
                    (old.top().nodes.len() - 1) as usize
                },
            ),
            None => new.top().selected is None,
        },
        key == Key::Up || key == Key::Down ==> new.levels().len() == old.levels().len()
            && new.top().nodes == old.top().nodes,
        key == Key::Backspace ==> new.levels() == if old.levels().len() > 1 {
            old.levels().drop_last()
        } else {
            old.levels()
        },
{
    let l = old.top();
    if key == Key::Down || key == Key::Up {
        if l.nodes.len() > 0 {
            let n = l.nodes.len();
            match l.selected {
                Some(i) => {
                    if key == Key::Down {
                        if i + 1 < n {
                            vstd::arithmetic::div_mod::lemma_small_mod((i + 1) as nat, n);
                        } else {
                            vstd::arithmetic::div_mod::lemma_mod_self_0(n as int);
                        }
                    } else {
                        if i > 0 {
                            vstd::arithmetic::div_mod::lemma_mod_add_multiples_vanish(
                                (i - 1) as int,
                                n as int,
                            );
                            vstd::arithmetic::div_mod::lemma_small_mod((i - 1) as nat, n);
                        } else {
                            vstd::arithmetic::div_mod::lemma_small_mod((n - 1) as nat, n);
                        }
                    }
                },
                None => {},
            }
        }
    }
}

/// What a key does to the browser, as a contract.
pub open spec fn key_step(old: TuiApp, key: Key, pressed: bool, new: TuiApp, eff: Effect) -> bool {
    if !pressed {
        new == old && eff is Nothing
    } else if old.preview() is Some {
        &&& new.levels() == old.levels()
        &&& new.status() == old.status()
        &&& match key {
            Key::Esc | Key::Char('q') => new.preview() is None && eff is Nothing,
            Key::Left | Key::Right => {
                let p = old.preview()->0;
                let next: int = if key == Key::Right {
                    p.page + 1
                } else {
                    p.page - 1
                };
                new.preview() == old.preview() && if 1 <= next <= p.total_pages {
                    eff matches Effect::RenderPage { page } && page == next
                } else {
                    eff is Nothing
                }
            },
            _ => new.preview() == old.preview() && eff is Nothing,
        }
    } else {
        &&& new.preview() is None
        &&& match key {
            Key::Char('q') | Key::Esc => new == old && eff is Quit,
            Key::Up | Key::Down => {
                &&& eff is Nothing
                &&& new.status() == old.status()
                &&& new.levels().len() == old.levels().len()
                &&& new.levels().drop_last() == old.levels().drop_last()
                &&& new.top().title == old.top().title
                &&& new.top().nodes == old.top().nodes
                &&& new.top().selected == moved(
                    old.top().selected,
                    old.top().nodes.len(),
                    key == Key::Down,
                )
            },
            Key::Backspace | Key::Left => {
                &&& eff is Nothing
                &&& new.status() == old.status()
                &&& new.levels() == if old.levels().len() > 1 {
                    old.levels().drop_last()
                } else {
                    old.levels()
                }
            },
            Key::Enter | Key::Right => new.levels() == old.levels() && match old.current() {
                None => eff is Nothing && new.status() == old.status(),
                Some(e) => if e.content {
                    eff matches Effect::LoadPreview { id, name } && id == e.unique_id && name@
                        == name_or(e, "documento"@) && new.status() == "descargando "@ + name_or(
                        e,
                        "documento"@,
                    ) + "..."@
                } else {
                    eff matches Effect::FetchChildren { id, name } && id == e.unique_id && name@
                        == name_or(e, "?"@) && new.status() == old.status()
                },
            },
            Key::Char('p') => new.levels() == old.levels() && match old.current() {
                None => eff is Nothing && new.status() == old.status(),
                Some(e) => if !e.content {
                    eff is Nothing && new.status() == "el nodo no tiene contenido"@
                } else {
                    eff matches Effect::LoadPreview { id, name } && id == e.unique_id && name@
                        == name_or(e, "documento"@) && new.status() == "descargando "@ + name_or(
                        e,
                        "documento"@,
                    ) + "..."@
                },
            },
            Key::Char('d') => new.levels() == old.levels() && match old.current() {
                None => eff is Nothing && new.status() == old.status(),
                Some(e) => if !e.content {
                    eff is Nothing && new.status() == "el nodo no tiene contenido"@
                } else {
                    eff matches Effect::Download { id, name } && id == e.unique_id && name@
                        == sanitized(name_or(e, "descarga.bin"@)) && new.status() == old.status()
                },
            },
            Key::Char('r') => new == old && (eff matches Effect::Refresh { id } && id@
                == old.top().parent_id),
            _ => new == old && eff is Nothing,
        }
    }
}

} // verus!
