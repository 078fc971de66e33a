use vstd::prelude::*;

verus! {

/// A live scene entity: its entity handle (as bits) and the id it has in the scene file.
#[derive(Clone, Copy, PartialEq, Eq, Structural, Debug)]
pub struct SceneTarget {
    pub entity: u64,
    pub json_id: u32,
}

/// State of the bone rigging setup mode.
pub struct RiggingSetupState {
    pub is_active: bool,
    /// The model entity being rigged.
    pub target_entity: Option<u64>,
    /// Names of the bones the user has highlighted.
    pub selected_bones: Vec<String>,
}

/// No name occurs twice in `v`.
pub open spec fn no_duplicates(v: Seq<String>) -> bool {
    forall|i: int, j: int| 0 <= i < j < v.len() ==> v[i]@ != v[j]@
}

/// `name` occurs in `v`.
pub open spec fn holds_name(v: Seq<String>, name: Seq<char>) -> bool {
    exists|i: int| 0 <= i < v.len() && v[i]@ == name
}

/// `i` is the first position of `name` in `v`.
pub open spec fn is_first_position(v: Seq<String>, name: Seq<char>, i: int) -> bool {
    &&& 0 <= i < v.len()
    &&& v[i]@ == name
    &&& forall|j: int| 0 <= j < i ==> v[j]@ != name
}

/// The first position of `name` in `v`, if it occurs.
pub open spec fn first_position(v: Seq<String>, name: Seq<char>) -> Option<int> {
    if exists|i: int| is_first_position(v, name, i) {
        Some(choose|i: int| is_first_position(v, name, i))
    } else {
        None
    }
}

/// `i` is the first live entity in `targets` whose scene id is `json_id`.
pub open spec fn is_first_target(targets: Seq<SceneTarget>, json_id: u32, i: int) -> bool {
    &&& 0 <= i < targets.len()
    &&& targets[i].json_id == json_id
    &&& forall|j: int| 0 <= j < i ==> targets[j].json_id != json_id
}

/// The first live entity in `targets` whose scene id is `json_id`, if any.
pub open spec fn target_for(targets: Seq<SceneTarget>, json_id: u32) -> Option<u64> {
    if exists|i: int| is_first_target(targets, json_id, i) {
        Some(targets[choose|i: int| is_first_target(targets, json_id, i)].entity)
    } else {
        None
    }
}

/// `st` is what a rigging command leaves, stated from the targets alone: rigging is
/// on exactly when the command activates it, no bones are selected, and the target
/// is the first live entity with the command's scene id (none when deactivating or
/// when no live entity has that id).
pub open spec fn command_outcome(
    json_id: u32,
    activate: bool,
    targets: Seq<SceneTarget>,
    st: (bool, Option<u64>, Seq<String>),
) -> bool {
    &&& st.0 == activate
    &&& st.2.len() == 0
    &&& if !activate {
        st.1 is None
    } else {
        match st.1 {
            Some(e) => exists|i: int|
                0 <= i < targets.len() && targets[i].json_id == json_id && targets[i].entity == e
                    && forall|j: int| 0 <= j < i ==> targets[j].json_id != json_id,
            None => forall|i: int| 0 <= i < targets.len() ==> targets[i].json_id != json_id,
        }
    }
}

proof fn lemma_first_position_unique(v: Seq<String>, name: Seq<char>, i: int)
    requires
        is_first_position(v, name, i),
    ensures
        first_position(v, name) == Some(i),
{
    let k = choose|k: int| is_first_position(v, name, k);
    assert(is_first_position(v, name, k));
    if k < i {
        assert(v[k]@ != name);
    } else if i < k {
        assert(v[i]@ != name);
    }
}

proof fn lemma_first_target_unique(targets: Seq<SceneTarget>, json_id: u32, i: int)
    requires
        is_first_target(targets, json_id, i),
    ensures
        target_for(targets, json_id) == Some(targets[i].entity),
{
    let k = choose|k: int| is_first_target(targets, json_id, k);
    assert(is_first_target(targets, json_id, k));
    if k < i {
        assert(targets[k].json_id != json_id);
    } else if i < k {
        assert(targets[i].json_id != json_id);
    }
}

/// The first position of `name` in `v`, if it occurs.
pub fn position_of(v: &Vec<String>, name: &String) -> (r: Option<usize>)
    ensures
        r matches Some(i) ==> first_position(v@, name@) == Some(i as int),
        r is None ==> first_position(v@, name@) is None,
        r is None <==> !holds_name(v@, name@),
{
    let mut i: usize = 0;
    while i < v.len()
        invariant
            i <= v.len(),
            forall|j: int| 0 <= j < i ==> v@[j]@ != name@,
        decreases v.len() - i,
    {
        if v[i] == *name {
            proof {
                lemma_first_position_unique(v@, name@, i as int);
            }
            return Some(i);
        }
        i = i + 1;
    }
    proof {
        if exists|k: int| is_first_position(v@, name@, k) {
            let k = choose|k: int| is_first_position(v@, name@, k);
            assert(v@[k]@ == name@);
        }
    }
    None
}

/// The first live entity in `targets` whose scene id is `json_id`.
pub fn find_target(targets: &Vec<SceneTarget>, json_id: u32) -> (r: Option<u64>)
    ensures
        r == target_for(targets@, json_id),
{
    let mut i: usize = 0;
    while i < targets.len()
        invariant
            i <= targets.len(),
            forall|j: int| 0 <= j < i ==> targets@[j].json_id != json_id,
        decreases targets.len() - i,
    {
        if targets[i].json_id == json_id {
            proof {
                lemma_first_target_unique(targets@, json_id, i as int);
            }
            return Some(targets[i].entity);
        }
        i = i + 1;
    }
    proof {
        if exists|k: int| is_first_target(targets@, json_id, k) {
            let k = choose|k: int| is_first_target(targets@, json_id, k);
            assert(targets@[k].json_id == json_id);
        }
    }
    None
}

impl RiggingSetupState {
    /// The state after a rigging command: activating for the model with scene id
    /// `json_id` targets its first live entity (or none) with no bones selected;
    /// deactivating clears the target and the selection.
    pub open spec fn after_command(
        self,
        json_id: u32,
        activate: bool,
        targets: Seq<SceneTarget>,
    ) -> (bool, Option<u64>, Seq<String>) {
        (activate, if activate { target_for(targets, json_id) } else { None }, Seq::empty())
    }

    /// The state as a triple (active, target, selected bones).
    pub open spec fn state(self) -> (bool, Option<u64>, Seq<String>) {
        (self.is_active, self.target_entity, self.selected_bones@)
    }

    /// The bone selection after a click on bone `bone`: with the multi-select
    /// modifier the bone is toggled (its first occurrence removed, or it is
    /// appended); without, it becomes the only selected bone.
    pub open spec fn bones_after_select(bones: Seq<String>, bone: String, multi_select: bool) -> Seq<String> {
        if multi_select {
            match first_position(bones, bone@) {
                Some(i) => bones.remove(i),
                None => bones.push(bone),
            }
        } else {
            seq![bone]
        }
    }

    /// A state that is not rigging anything.
    pub fn new() -> (r: Self)
        ensures
            r.state() == (false, None::<u64>, Seq::<String>::empty()),
    {
        RiggingSetupState { is_active: false, target_entity: None, selected_bones: Vec::new() }
    }

    /// Applies one rigging command from the web page.
    pub fn apply_command(&mut self, json_id: u32, activate: bool, targets: &Vec<SceneTarget>)
        ensures
            final(self).state() == old(self).after_command(json_id, activate, targets@),
            command_outcome(json_id, activate, targets@, final(self).state()),
    {
        self.is_active = activate;
        if activate {
            self.selected_bones.clear();
            self.target_entity = None;
            let found = find_target(targets, json_id);
            self.target_entity = found;
        } else {
            self.target_entity = None;
            self.selected_bones.clear();
        }
        proof {
            lemma_command_forgets_previous_state(*self, *self, json_id, activate, targets@);
        }
    }

    /// Applies a batch of rigging commands in order. Only the last one decides the
    /// resulting state; an empty batch changes nothing.
    pub fn apply_commands(&mut self, commands: &Vec<(u32, bool)>, targets: &Vec<SceneTarget>)
        ensures
            commands@.len() == 0 ==> final(self).state() == old(self).state(),
            commands@.len() > 0 ==> final(self).state() == old(self).after_command(
                commands@.last().0,
                commands@.last().1,
                targets@,
            ),
    {
        let mut i: usize = 0;
        while i < commands.len()
            invariant
                i <= commands.len(),
                i == 0 ==> self.state() == old(self).state(),
                i > 0 ==> self.state() == old(self).after_command(
                    commands@[i - 1].0,
                    commands@[i - 1].1,
                    targets@,
                ),
            decreases commands.len() - i,
        {
            let (json_id, activate) = commands[i];
            self.apply_command(json_id, activate, targets);
            i = i + 1;
        }
    }

    /// Whether the bone `name` is highlighted.
    pub fn is_bone_selected(&self, name: &String) -> (r: bool)
        ensures
            r == holds_name(self.selected_bones@, name@),
    {
        position_of(&self.selected_bones, name).is_some()
    }

    /// Selects the clicked bone `bone`; see `bones_after_select`.
    pub fn select_bone(&mut self, bone: String, multi_select: bool)
        ensures
            final(self).selected_bones@ == Self::bones_after_select(
                old(self).selected_bones@,
                bone,
                multi_select,
            ),
            final(self).is_active == old(self).is_active,
            final(self).target_entity == old(self).target_entity,
            no_duplicates(old(self).selected_bones@) ==> no_duplicates(final(self).selected_bones@),
    {
        if multi_select {
            match position_of(&self.selected_bones, &bone) {
                Some(i) => {
                    self.selected_bones.remove(i);
                },
                None => {
                    self.selected_bones.push(bone);
                },
            }
        } else {
            let mut v = Vec::new();
            v.push(bone);
            self.selected_bones = v;
        }
    }
}

impl Default for RiggingSetupState {
    fn default() -> (r: Self)
        ensures
            r.state() == (false, None::<u64>, Seq::<String>::empty()),
    {
        RiggingSetupState::new()
    }
}

/// With the multi-select modifier, clicking a bone flips whether it is selected
/// (in a selection without duplicates, which every selection is).
pub proof fn lemma_toggle_flips_membership(bones: Seq<String>, bone: String)
    requires
        no_duplicates(bones),
    ensures
        holds_name(RiggingSetupState::bones_after_select(bones, bone, true), bone@)
            == !holds_name(bones, bone@),
{
    let after = RiggingSetupState::bones_after_select(bones, bone, true);
    if exists|i: int| is_first_position(bones, bone@, i) {
        let i = choose|i: int| is_first_position(bones, bone@, i);
        lemma_first_position_unique(bones, bone@, i);
        assert(after == bones.remove(i));
        if holds_name(after, bone@) {
            let k = choose|k: int| 0 <= k < after.len() && after[k]@ == bone@;
            if k < i {
                assert(bones[k]@ == bone@);
            } else {
                assert(bones[k + 1]@ == bone@);
                assert(bones[i]@ == bones[k + 1]@);
            }
        }
    } else {
        assert(after == bones.push(bone));
        assert(after[bones.len() as int]@ == bone@);
        if holds_name(bones, bone@) {
            let k = choose|k: int| 0 <= k < bones.len() && bones[k]@ == bone@;
            lemma_some_first_position(bones, bone@, k);
        }
    }
}

/// When a name occurs, it has a first occurrence.
proof fn lemma_some_first_position(v: Seq<String>, name: Seq<char>, k: int)
    requires
        0 <= k < v.len(),
        v[k]@ == name,
    ensures
        exists|i: int| is_first_position(v, name, i),
    decreases k,
{
    if forall|j: int| 0 <= j < k ==> v[j]@ != name {
        assert(is_first_position(v, name, k));
    } else {
        let j = choose|j: int| 0 <= j < k && v[j]@ == name;
        lemma_some_first_position(v, name, j);
    }
}

/// Clicking a bone that is not selected twice with the multi-select modifier
/// leaves the selection as it was.
pub proof fn lemma_toggle_twice_restores(bones: Seq<String>, bone: String)
    requires
        !holds_name(bones, bone@),
    ensures
        RiggingSetupState::bones_after_select(
            RiggingSetupState::bones_after_select(bones, bone, true),
            bone,
            true,
        ) == bones,
{
    if exists|i: int| is_first_position(bones, bone@, i) {
        let i = choose|i: int| is_first_position(bones, bone@, i);
        assert(bones[i]@ == bone@);
    }
    let once = bones.push(bone);
    assert(RiggingSetupState::bones_after_select(bones, bone, true) == once);
    assert(is_first_position(once, bone@, bones.len() as int));
    lemma_first_position_unique(once, bone@, bones.len() as int);
    assert(once.remove(bones.len() as int) =~= bones);
}

/// Clicking a bone without the modifier selects exactly that bone.
pub proof fn lemma_single_select(bones: Seq<String>, bone: String)
    ensures
        RiggingSetupState::bones_after_select(bones, bone, false) == seq![bone],
        no_duplicates(seq![bone]),
{
}

/// A rigging command does not depend on the state before it: from any two states
/// the same command leads to the same state, and that state is the one
/// `command_outcome` describes (activation targets the first live entity with the id
/// and clears the bones, deactivation clears target and bones).
pub proof fn lemma_command_forgets_previous_state(
    s1: RiggingSetupState,
    s2: RiggingSetupState,
    json_id: u32,
    activate: bool,
    targets: Seq<SceneTarget>,
)
    ensures
        s1.after_command(json_id, activate, targets) == s2.after_command(json_id, activate, targets),
        command_outcome(json_id, activate, targets, s1.after_command(json_id, activate, targets)),
{
    if activate {
        if exists|i: int| is_first_target(targets, json_id, i) {
            let i = choose|i: int| is_first_target(targets, json_id, i);
            assert(is_first_target(targets, json_id, i));
        } else {
            assert forall|i: int| 0 <= i < targets.len() implies targets[i].json_id != json_id by {
                if targets[i].json_id == json_id {
                    lemma_some_first_target(targets, json_id, i);
                }
            }
        }
    }
}

/// When some live entity has the id, there is a first one.
proof fn lemma_some_first_target(targets: Seq<SceneTarget>, json_id: u32, k: int)
    requires
        0 <= k < targets.len(),
        targets[k].json_id == json_id,
    ensures
        exists|i: int| is_first_target(targets, json_id, i),
    decreases k,
{
    if forall|j: int| 0 <= j < k ==> targets[j].json_id != json_id {
        assert(is_first_target(targets, json_id, k));
    } else {
        let j = choose|j: int| 0 <= j < k && targets[j].json_id == json_id;
        lemma_some_first_target(targets, json_id, j);
    }
}

} // verus!
