//! Presets: named sets of add-ons that are enabled together.

use crate::addon::{Addon, AddonView};
use crate::text::{join3, lowercase_of, to_lowercase, trim, trimmed};
use vstd::prelude::*;
use vstd::string::StringExecFns;

verus! {

/// Whether `c` is an ASCII letter or digit.
pub open spec fn is_ascii_alphanumeric(c: char) -> bool {
    ('0' <= c && c <= '9') || ('a' <= c && c <= 'z') || ('A' <= c && c <= 'Z')
}

/// Whether a character of a name is kept in the slug.
pub open spec fn slug_keeps(c: char) -> bool {
    is_ascii_alphanumeric(c) || c == ' '
}

/// The character that stands in the slug for a kept character.
pub open spec fn slug_char(c: char) -> char {
    if c == ' ' {
        '-'
    } else {
        c
    }
}

/// The slug of an already trimmed, lowercase name: what is neither an ASCII
/// letter or digit nor a space is dropped, and each space becomes a dash.
pub open spec fn slug_of(s: Seq<char>) -> Seq<char> {
    s.filter(|c: char| slug_keeps(c)).map_values(|c: char| slug_char(c))
}

/// Turns an already trimmed, lowercase name into its slug.
pub fn slug_of_normalized(s: &str) -> (slug: String)
    ensures
        slug@ == slug_of(s@),
{
    let mut slug = String::new();
    assert(s@.take(0).filter(|c: char| slug_keeps(c)) =~= Seq::<char>::empty()) by {
        reveal(Seq::filter);
    }
    for c in it: s.chars()
        invariant
            it.seq() == s@,
            slug@ == slug_of(s@.take(it.index())),
    {
        proof {
            let i = it.index();
            reveal(Seq::filter);
            assert(s@.take(i + 1).drop_last() =~= s@.take(i));
            assert(s@.take(i + 1).last() == c);
        }
        if c == ' ' {
            slug.push('-');
        } else if ('0' <= c && c <= '9') || ('a' <= c && c <= 'z') || ('A' <= c && c <= 'Z') {
            slug.push(c);
        }
    }
    assert(s@.take(s@.len() as int) =~= s@);
    slug
}

/// The identifier of a preset, made from its name: trimmed, in lowercase,
/// without what is neither an ASCII letter or digit nor a space, and with a
/// dash for each space left.
pub fn slugify(name: &str) -> (slug: String)
    ensures
        slug@ == slug_of(lowercase_of(trimmed(name@))),
{
    let lower = to_lowercase(trim(name));
    slug_of_normalized(lower.as_str())
}

/// A named set of add-ons.
#[derive(Clone, Debug)]
pub struct Preset {
    /// The slug of the name, by which the preset is stored and found.
    pub id: String,
    pub name: String,
    pub description: Option<String>,
    /// The ids of the add-ons that the preset enables.
    pub addons: Vec<String>,
}

/// What a `Preset` holds, as plain values.
pub struct PresetView {
    pub id: Seq<char>,
    pub name: Seq<char>,
    pub description: Option<Seq<char>>,
    pub addons: Seq<Seq<char>>,
}

impl View for Preset {
    type V = PresetView;

    open spec fn view(&self) -> PresetView {
        PresetView {
            id: self.id@,
            name: self.name@,
            description: match self.description {
                Some(text) => Some(text@),
                None => None,
            },
            addons: self.addons.deep_view(),
        }
    }
}

/// One step of bringing the installed add-ons in line with a preset.
#[derive(Debug)]
pub enum PresetAction {
    /// Enable the add-on of this id.
    Enable(String),
    /// Disable the add-on of this id.
    Disable(String),
}

impl PresetAction {
    /// Whether a failure of this step ends the run and is handed on as its
    /// result. A step that disables does; one that enables does not: its
    /// failure is passed over and the run goes on with the next step.
    pub fn stops_on_failure(&self) -> (stop: bool)
        ensures
            stop == (self is Disable),
    {
        match self {
            PresetAction::Enable(_) => false,
            PresetAction::Disable(_) => true,
        }
    }
}

/// What a `PresetAction` holds, as plain values.
pub enum PresetActionView {
    Enable(Seq<char>),
    Disable(Seq<char>),
}

impl View for PresetAction {
    type V = PresetActionView;

    open spec fn view(&self) -> PresetActionView {
        match self {
            PresetAction::Enable(id) => PresetActionView::Enable(id@),
            PresetAction::Disable(id) => PresetActionView::Disable(id@),
        }
    }
}

impl DeepView for PresetAction {
    type V = PresetActionView;

    open spec fn deep_view(&self) -> PresetActionView {
        self@
    }
}

/// What a preset with the add-ons `wanted` asks of one installed add-on:
/// nothing where it is enabled exactly if the preset names it, else the step
/// that makes it so.
pub open spec fn action_for(wanted: Seq<Seq<char>>, addon: AddonView) -> Seq<PresetActionView> {
    if wanted.contains(addon.id) == addon.enabled {
        Seq::empty()
    } else if addon.enabled {
        seq![PresetActionView::Disable(addon.id)]
    } else {
        seq![PresetActionView::Enable(addon.id)]
    }
}

/// The steps for the first `n` of the installed add-ons, in their order.
pub open spec fn plan_for(wanted: Seq<Seq<char>>, addons: Seq<AddonView>, n: nat) -> Seq<
    PresetActionView,
>
    decreases n,
{
    if n == 0 {
        Seq::empty()
    } else {
        plan_for(wanted, addons, (n - 1) as nat) + action_for(wanted, addons[n - 1])
    }
}

/// Add-ons that are in line with a preset get no step: where each of the
/// first `n` is enabled exactly if the preset names it, as after a run in
/// which every step went through, the plan for them is empty.
pub proof fn lemma_plan_for_settled(wanted: Seq<Seq<char>>, addons: Seq<AddonView>, n: nat)
    requires
        forall|i: int| 0 <= i < n ==> wanted.contains((#[trigger] addons[i]).id) == addons[i].enabled,
    ensures
        plan_for(wanted, addons, n) == Seq::<PresetActionView>::empty(),
    decreases n,
{
    if n > 0 {
        lemma_plan_for_settled(wanted, addons, (n - 1) as nat);
        assert(action_for(wanted, addons[n - 1]) == Seq::<PresetActionView>::empty());
        assert(plan_for(wanted, addons, (n - 1) as nat) + action_for(wanted, addons[n - 1])
            =~= Seq::<PresetActionView>::empty());
    }
}

/// Whether `id` is one of `ids`.
fn contains_id(ids: &Vec<String>, id: &String) -> (found: bool)
    ensures
        found == ids.deep_view().contains(id@),
{
    let mut i: usize = 0;
    while i < ids.len()
        invariant
            i <= ids@.len(),
            forall|j: int| 0 <= j < i ==> ids@[j]@ != id@,
        decreases ids@.len() - i,
    {
        if ids[i] == *id {
            assert(ids.deep_view()[i as int] == id@);
            return true;
        }
        i = i + 1;
    }
    assert forall|j: int| 0 <= j < ids.deep_view().len() implies ids.deep_view()[j] != id@ by {
        assert(ids.deep_view()[j] == ids@[j]@);
    }
    false
}

impl Preset {
    /// The steps that bring the installed add-ons in line with the preset:
    /// for each add-on in turn, enable it where the preset names it and it is
    /// disabled, disable it where the preset does not name it and it is
    /// enabled. Add-ons that the preset names and that are not installed are
    /// passed over.
    pub fn apply(&self, current_addons: &Vec<Addon>) -> (plan: Vec<PresetAction>)
        ensures
            plan.deep_view() == plan_for(
                self.addons.deep_view(),
                current_addons.deep_view(),
                current_addons@.len(),
            ),
    {
        let mut plan: Vec<PresetAction> = Vec::new();
        let ghost wanted = self.addons.deep_view();
        let ghost addons = current_addons.deep_view();
        let mut i: usize = 0;
        while i < current_addons.len()
            invariant
                i <= current_addons@.len(),
                wanted == self.addons.deep_view(),
                addons == current_addons.deep_view(),
                plan.deep_view() == plan_for(wanted, addons, i as nat),
            decreases current_addons@.len() - i,
        {
            let a = &current_addons[i];
            let should_be_enabled = contains_id(&self.addons, &a.id);
            let ghost before = plan.deep_view();
            assert(addons[i as int] == a@);
            if should_be_enabled != a.enabled {
                if should_be_enabled {
                    plan.push(PresetAction::Enable(a.id.clone()));
                    assert(plan.deep_view() =~= before + seq![PresetActionView::Enable(a.id@)]);
                } else {
                    plan.push(PresetAction::Disable(a.id.clone()));
                    assert(plan.deep_view() =~= before + seq![PresetActionView::Disable(a.id@)]);
                }
            } else {
                assert(before + Seq::<PresetActionView>::empty() =~= before);
            }
            i = i + 1;
        }
        plan
    }
}

/// Why a preset could not be stored, found or removed.
#[derive(Clone, Copy, Debug, PartialEq, Eq, Structural)]
pub enum PresetError {
    AlreadyExists,
    NotFound,
}

/// The text of a `PresetError` for the preset of the id `id`.
pub open spec fn preset_error_text(error: PresetError, id: Seq<char>) -> Seq<char> {
    match error {
        PresetError::AlreadyExists => "Preset '"@ + id + "' already exists"@,
        PresetError::NotFound => "Preset '"@ + id + "' not found"@,
    }
}

impl PresetError {
    /// The error as text, naming the preset.
    pub fn message(&self, id: &str) -> (text: String)
        ensures
            text@ == preset_error_text(*self, id@),
    {
        match self {
            PresetError::AlreadyExists => join3("Preset '", id, "' already exists"),
            PresetError::NotFound => join3("Preset '", id, "' not found"),
        }
    }
}

/// The presets kept in one directory, one file each.
#[derive(Debug)]
pub struct PresetManager {
    pub path: String,
}

impl PresetManager {
    /// A manager for the presets kept in the directory `path`.
    pub fn new(path: String) -> (manager: PresetManager)
        ensures
            manager.path == path,
    {
        PresetManager { path }
    }

    /// The name of the file that holds the preset of the id `id`.
    pub fn preset_file(&self, id: &str) -> (name: String)
        ensures
            name@ == id@ + ".json"@,
    {
        let mut name = String::from_str(id);
        name.append(".json");
        name
    }

    /// Readies a preset for being stored for the first time: its id becomes
    /// the slug of its name, whatever id it came with. Where a preset of that
    /// id is stored already (`exists`), it is refused.
    pub fn create_preset(&self, preset: Preset, exists: bool) -> (r: Result<Preset, PresetError>)
        ensures
            exists ==> r == Err::<Preset, PresetError>(PresetError::AlreadyExists),
            !exists ==> r is Ok && r->Ok_0@ == (PresetView {
                id: slug_of(lowercase_of(trimmed(preset.name@))),
                ..preset@
            }),
    {
        if exists {
            return Err(PresetError::AlreadyExists);
        }
        let id = slugify(preset.name.as_str());
        Ok(Preset { id, name: preset.name, description: preset.description, addons: preset.addons })
    }
}

} // verus!
