//! Input: logical actions, the per-frame button state derived from the
//! bound keys, and a short buffer of recent presses that game logic
//! consumes. Reading devices, key bindings and analog axes are the game's.

use vstd::prelude::*;

verus! {

/// Logical game actions.
#[derive(Debug, Clone, Copy, PartialEq, Eq, Structural, Hash)]
pub enum InputAction {
    MoveForward,
    MoveBackward,
    MoveLeft,
    MoveRight,
    Jump,
    Sprint,
    Crouch,
    Interact,
    Aim,
    LeanLeft,
    LeanRight,
    Attack,
    Block,
    SwitchCameraMode,
    Fire,
    Reload,
    NextWeapon,
    PrevWeapon,
    ToggleInventory,
    SelectWeapon1,
    SelectWeapon2,
    SelectWeapon3,
    SelectWeapon4,
    SelectWeapon5,
    SelectWeapon6,
    SelectWeapon7,
    SelectWeapon8,
    SelectWeapon9,
    SelectWeapon0,
    Hide,
    Peek,
    CornerLean,
    ResetCamera,
    LockOn,
    ZoomIn,
    ZoomOut,
    SideSwitch,
}

/// A recently pressed action and when it was pressed (in the game's time unit).
#[derive(Debug, Clone, Copy, PartialEq, Eq)]
pub struct BufferedAction<T> {
    pub action: InputAction,
    pub timestamp: T,
}

/// Recently pressed actions, oldest first.
#[derive(Debug, Clone)]
pub struct InputBuffer<T> {
    pub actions: Vec<BufferedAction<T>>,
}

/// The actions of a buffer, oldest first.
pub open spec fn buffered_actions<T>(s: Seq<BufferedAction<T>>) -> Seq<InputAction> {
    s.map_values(|b: BufferedAction<T>| b.action)
}

/// The entries whose flag is set, in order.
pub open spec fn kept<T>(s: Seq<T>, keep: Seq<bool>) -> Seq<T>
    decreases s.len(),
{
    if s.len() == 0 || keep.len() == 0 {
        Seq::empty()
    } else {
        let rest = kept(s.drop_last(), keep.drop_last());
        if keep.last() { rest.push(s.last()) } else { rest }
    }
}

/// `i` is the first entry holding `a`.
pub open spec fn first_buffered<T>(s: Seq<BufferedAction<T>>, a: InputAction, i: int) -> bool {
    &&& 0 <= i < s.len()
    &&& s[i].action == a
    &&& forall|j: int| 0 <= j < i ==> (#[trigger] s[j]).action != a
}

impl<T: Copy> InputBuffer<T> {
    /// Records a press.
    pub fn push(&mut self, action: InputAction, timestamp: T)
        ensures
            final(self).actions@ == old(self).actions@.push(BufferedAction { action, timestamp }),
    {
        self.actions.push(BufferedAction { action, timestamp });
    }

    /// Whether the action was pressed recently.
    pub fn is_buffered(&self, action: InputAction) -> (r: bool)
        ensures
            r == buffered_actions(self.actions@).contains(action),
    {
        let mut i: usize = 0;
        while i < self.actions.len()
            invariant
                i <= self.actions@.len(),
                forall|j: int| 0 <= j < i ==> (#[trigger] self.actions@[j]).action != action,
            decreases self.actions@.len() - i,
        {
            if self.actions[i].action == action {
                assert(buffered_actions(self.actions@)[i as int] == action);
                return true;
            }
            i = i + 1;
        }
        proof {
            if buffered_actions(self.actions@).contains(action) {
                let k = choose|k: int| 0 <= k < buffered_actions(self.actions@).len() && buffered_actions(self.actions@)[k] == action;
                assert(self.actions@[k].action == action);
            }
        }
        false
    }

    /// Takes the oldest press of the action out of the buffer, if there is one.
    pub fn consume(&mut self, action: InputAction) -> (r: bool)
        ensures
            r == buffered_actions(old(self).actions@).contains(action),
            r ==> exists|i: int| first_buffered(old(self).actions@, action, i)
                && final(self).actions@ == old(self).actions@.remove(i),
            !r ==> final(self).actions@ == old(self).actions@,
    {
        let mut i: usize = 0;
        while i < self.actions.len()
            invariant
                i <= self.actions@.len(),
                self.actions@ == old(self).actions@,
                forall|j: int| 0 <= j < i ==> (#[trigger] self.actions@[j]).action != action,
            decreases self.actions@.len() - i,
        {
            if self.actions[i].action == action {
                assert(buffered_actions(self.actions@)[i as int] == action);
                assert(first_buffered(old(self).actions@, action, i as int));
                self.actions.remove(i);
                return true;
            }
            i = i + 1;
        }
        proof {
            if buffered_actions(self.actions@).contains(action) {
                let k = choose|k: int| 0 <= k < buffered_actions(self.actions@).len() && buffered_actions(self.actions@)[k] == action;
                assert(self.actions@[k].action == action);
            }
        }
        false
    }

    /// Keeps the presses whose flag is set, in order; the game flags the
    /// presses that have not expired.
    pub fn retain_flagged(&mut self, keep: &Vec<bool>)
        requires
            keep@.len() == old(self).actions@.len(),
        ensures
            final(self).actions@ == kept(old(self).actions@, keep@),
    {
        let mut out: Vec<BufferedAction<T>> = Vec::new();
        let mut i: usize = 0;
        while i < self.actions.len()
            invariant
                i <= self.actions@.len(),
                keep@.len() == self.actions@.len(),
                self.actions@ == old(self).actions@,
                out@ == kept(self.actions@.take(i as int), keep@.take(i as int)),
            decreases self.actions@.len() - i,
        {
            proof {
                assert(self.actions@.take(i + 1).drop_last() =~= self.actions@.take(i as int));
                assert(keep@.take(i + 1).drop_last() =~= keep@.take(i as int));
            }
            if keep[i] {
                out.push(self.actions[i]);
            }
            i = i + 1;
        }
        assert(self.actions@.take(i as int) =~= self.actions@);
        assert(keep@.take(i as int) =~= keep@);
        self.actions = out;
    }
}

impl<T: Copy> Default for InputBuffer<T> {
    /// An empty buffer.
    fn default() -> (b: Self)
        ensures
            b.actions@ == Seq::<BufferedAction<T>>::empty(),
    {
        InputBuffer { actions: Vec::new() }
    }
}

/// The button state of a frame. Movement and look axes are the game's.
#[derive(Debug, Clone, Copy, PartialEq, Eq, Structural)]
pub struct InputState {
    pub jump_pressed: bool,
    pub crouch_pressed: bool,
    pub sprint_pressed: bool,
    pub interact_pressed: bool,
    pub aim_pressed: bool,
    pub lean_left: bool,
    pub lean_right: bool,
    pub lock_on_pressed: bool,
    pub attack_pressed: bool,
    pub block_pressed: bool,
    pub switch_camera_mode_pressed: bool,
    pub fire_pressed: bool,
    pub fire_just_pressed: bool,
    pub reload_pressed: bool,
    pub next_weapon_pressed: bool,
    pub prev_weapon_pressed: bool,
    pub toggle_inventory_pressed: bool,
    pub side_switch_pressed: bool,
    pub hide_pressed: bool,
    pub peek_pressed: bool,
    pub corner_lean_pressed: bool,
    pub reset_camera_pressed: bool,
    pub zoom_in_pressed: bool,
    pub zoom_out_pressed: bool,
    /// The weapon slot chosen this frame, 0 to 9.
    pub select_weapon: Option<usize>,
    pub enabled: bool,
}

/// Every button released and no weapon chosen; `enabled` as given.
pub open spec fn released(enabled: bool) -> InputState {
    InputState {
        jump_pressed: false,
        crouch_pressed: false,
        sprint_pressed: false,
        interact_pressed: false,
        aim_pressed: false,
        lean_left: false,
        lean_right: false,
        lock_on_pressed: false,
        attack_pressed: false,
        block_pressed: false,
        switch_camera_mode_pressed: false,
        fire_pressed: false,
        fire_just_pressed: false,
        reload_pressed: false,
        next_weapon_pressed: false,
        prev_weapon_pressed: false,
        toggle_inventory_pressed: false,
        side_switch_pressed: false,
        hide_pressed: false,
        peek_pressed: false,
        corner_lean_pressed: false,
        reset_camera_pressed: false,
        zoom_in_pressed: false,
        zoom_out_pressed: false,
        select_weapon: None,
        enabled,
    }
}

/// The weapon slot chosen by the selection keys pressed this frame: the
/// first of keys 1 to 9 and then 0, as slots 0 to 9.
pub open spec fn weapon_slot(just: Seq<InputAction>) -> Option<usize> {
    if just.contains(InputAction::SelectWeapon1) { Some(0) }
    else if just.contains(InputAction::SelectWeapon2) { Some(1) }
    else if just.contains(InputAction::SelectWeapon3) { Some(2) }
    else if just.contains(InputAction::SelectWeapon4) { Some(3) }
    else if just.contains(InputAction::SelectWeapon5) { Some(4) }
    else if just.contains(InputAction::SelectWeapon6) { Some(5) }
    else if just.contains(InputAction::SelectWeapon7) { Some(6) }
    else if just.contains(InputAction::SelectWeapon8) { Some(7) }
    else if just.contains(InputAction::SelectWeapon9) { Some(8) }
    else if just.contains(InputAction::SelectWeapon0) { Some(9) }
    else { None }
}

/// The button state read from the actions held and those pressed this frame.
pub open spec fn state_from(held: Seq<InputAction>, just: Seq<InputAction>) -> InputState {
    InputState {
        crouch_pressed: held.contains(InputAction::Crouch),
        sprint_pressed: held.contains(InputAction::Sprint),
        aim_pressed: held.contains(InputAction::Aim),
        lean_left: held.contains(InputAction::LeanLeft),
        lean_right: held.contains(InputAction::LeanRight),
        block_pressed: held.contains(InputAction::Block),
        fire_pressed: held.contains(InputAction::Fire),
        jump_pressed: just.contains(InputAction::Jump),
        interact_pressed: just.contains(InputAction::Interact),
        lock_on_pressed: just.contains(InputAction::LockOn),
        attack_pressed: just.contains(InputAction::Attack),
        switch_camera_mode_pressed: just.contains(InputAction::SwitchCameraMode),
        fire_just_pressed: just.contains(InputAction::Fire),
        reload_pressed: just.contains(InputAction::Reload),
        reset_camera_pressed: just.contains(InputAction::ResetCamera),
        next_weapon_pressed: just.contains(InputAction::NextWeapon),
        prev_weapon_pressed: just.contains(InputAction::PrevWeapon),
        toggle_inventory_pressed: just.contains(InputAction::ToggleInventory),
        side_switch_pressed: just.contains(InputAction::SideSwitch),
        hide_pressed: just.contains(InputAction::Hide),
        peek_pressed: just.contains(InputAction::Peek),
        corner_lean_pressed: just.contains(InputAction::CornerLean),
        zoom_in_pressed: just.contains(InputAction::ZoomIn),
        zoom_out_pressed: just.contains(InputAction::ZoomOut),
        select_weapon: weapon_slot(just),
        enabled: true,
    }
}

/// The presses a frame buffers: jump, interact and lock-on, in that order.
pub open spec fn buffered_presses(just: Seq<InputAction>) -> Seq<InputAction> {
    (if just.contains(InputAction::Jump) { seq![InputAction::Jump] } else { Seq::empty() })
    + (if just.contains(InputAction::Interact) { seq![InputAction::Interact] } else { Seq::empty() })
    + (if just.contains(InputAction::LockOn) { seq![InputAction::LockOn] } else { Seq::empty() })
}

/// Whether the action was pressed this frame: its press flag, or for a
/// weapon key whether its slot was chosen; false for the actions that are
/// only read as held (movement, sprint, crouch, aim, leaning, block).
pub open spec fn spec_just_pressed(st: InputState, action: InputAction) -> bool {
    match action {
        InputAction::Attack => st.attack_pressed,
        InputAction::Fire => st.fire_just_pressed,
        InputAction::NextWeapon => st.next_weapon_pressed,
        InputAction::PrevWeapon => st.prev_weapon_pressed,
        InputAction::ToggleInventory => st.toggle_inventory_pressed,
        InputAction::SelectWeapon1 => st.select_weapon == Some(0usize),
        InputAction::SelectWeapon2 => st.select_weapon == Some(1usize),
        InputAction::SelectWeapon3 => st.select_weapon == Some(2usize),
        InputAction::SelectWeapon4 => st.select_weapon == Some(3usize),
        InputAction::SelectWeapon5 => st.select_weapon == Some(4usize),
        InputAction::SelectWeapon6 => st.select_weapon == Some(5usize),
        InputAction::SelectWeapon7 => st.select_weapon == Some(6usize),
        InputAction::SelectWeapon8 => st.select_weapon == Some(7usize),
        InputAction::SelectWeapon9 => st.select_weapon == Some(8usize),
        InputAction::SelectWeapon0 => st.select_weapon == Some(9usize),
        InputAction::Jump => st.jump_pressed,
        InputAction::Interact => st.interact_pressed,
        InputAction::LockOn => st.lock_on_pressed,
        InputAction::Reload => st.reload_pressed,
        InputAction::ResetCamera => st.reset_camera_pressed,
        InputAction::SwitchCameraMode => st.switch_camera_mode_pressed,
        InputAction::SideSwitch => st.side_switch_pressed,
        InputAction::Hide => st.hide_pressed,
        InputAction::Peek => st.peek_pressed,
        InputAction::CornerLean => st.corner_lean_pressed,
        InputAction::ZoomIn => st.zoom_in_pressed,
        InputAction::ZoomOut => st.zoom_out_pressed,
        _ => false,
    }
}

/// Whether `a` is in `v`.
fn has_action(v: &Vec<InputAction>, a: InputAction) -> (r: bool)
    ensures
        r == v@.contains(a),
{
    let mut i: usize = 0;
    while i < v.len()
        invariant
            i <= v@.len(),
            forall|j: int| 0 <= j < i ==> v@[j] != a,
        decreases v@.len() - i,
    {
        if v[i] == a {
            return true;
        }
        i = i + 1;
    }
    false
}

fn weapon_slot_of(just: &Vec<InputAction>) -> (r: Option<usize>)
    ensures
        r == weapon_slot(just@),
{
    if has_action(just, InputAction::SelectWeapon1) { Some(0) }
    else if has_action(just, InputAction::SelectWeapon2) { Some(1) }
    else if has_action(just, InputAction::SelectWeapon3) { Some(2) }
    else if has_action(just, InputAction::SelectWeapon4) { Some(3) }
    else if has_action(just, InputAction::SelectWeapon5) { Some(4) }
    else if has_action(just, InputAction::SelectWeapon6) { Some(5) }
    else if has_action(just, InputAction::SelectWeapon7) { Some(6) }
    else if has_action(just, InputAction::SelectWeapon8) { Some(7) }
    else if has_action(just, InputAction::SelectWeapon9) { Some(8) }
    else if has_action(just, InputAction::SelectWeapon0) { Some(9) }
    else { None }
}

impl InputState {
    /// Enables or disables input; disabling releases every button.
    pub fn set_input_enabled(&mut self, enabled: bool)
        ensures
            enabled ==> *final(self) == (InputState { enabled: true, ..*old(self) }),
            !enabled ==> *final(self) == released(false),
    {
        if enabled {
            *self = InputState { enabled: true, ..*self };
        } else {
            let mut s = InputState::default();
            s.enabled = false;
            *self = s;
        }
    }

    /// Whether the action was just pressed: its press flag, or for a weapon
    /// key whether its slot was chosen this frame.
    pub fn is_action_just_pressed(&self, action: InputAction) -> (r: bool)
        ensures
            r == spec_just_pressed(*self, action),
    {
        match action {
            InputAction::Attack => self.attack_pressed,
            InputAction::Fire => self.fire_just_pressed,
            InputAction::NextWeapon => self.next_weapon_pressed,
            InputAction::PrevWeapon => self.prev_weapon_pressed,
            InputAction::ToggleInventory => self.toggle_inventory_pressed,
            InputAction::SelectWeapon1 => self.select_weapon == Some(0usize),
            InputAction::SelectWeapon2 => self.select_weapon == Some(1usize),
            InputAction::SelectWeapon3 => self.select_weapon == Some(2usize),
            InputAction::SelectWeapon4 => self.select_weapon == Some(3usize),
            InputAction::SelectWeapon5 => self.select_weapon == Some(4usize),
            InputAction::SelectWeapon6 => self.select_weapon == Some(5usize),
            InputAction::SelectWeapon7 => self.select_weapon == Some(6usize),
            InputAction::SelectWeapon8 => self.select_weapon == Some(7usize),
            InputAction::SelectWeapon9 => self.select_weapon == Some(8usize),
            InputAction::SelectWeapon0 => self.select_weapon == Some(9usize),
            InputAction::Jump => self.jump_pressed,
            InputAction::Interact => self.interact_pressed,
            InputAction::LockOn => self.lock_on_pressed,
            InputAction::Reload => self.reload_pressed,
            InputAction::ResetCamera => self.reset_camera_pressed,
            InputAction::SwitchCameraMode => self.switch_camera_mode_pressed,
            InputAction::SideSwitch => self.side_switch_pressed,
            InputAction::Hide => self.hide_pressed,
            InputAction::Peek => self.peek_pressed,
            InputAction::CornerLean => self.corner_lean_pressed,
            InputAction::ZoomIn => self.zoom_in_pressed,
            InputAction::ZoomOut => self.zoom_out_pressed,
            _ => false,
        }
    }

    /// One frame of input: with input enabled, the presses of jump,
    /// interact and lock-on are buffered at `now`, and the button state is
    /// read from the actions held and those pressed this frame. With input
    /// disabled nothing changes.
    pub fn update_input_state<T: Copy>(&mut self, buffer: &mut InputBuffer<T>, now: T,
        held: &Vec<InputAction>, just: &Vec<InputAction>)
        ensures
            !old(self).enabled ==> *final(self) == *old(self) && final(buffer).actions@ == old(buffer).actions@,
            old(self).enabled ==> {
                &&& *final(self) == state_from(held@, just@)
                &&& final(buffer).actions@ == old(buffer).actions@
                    + buffered_presses(just@).map_values(|a: InputAction| BufferedAction { action: a, timestamp: now })
            },
    {
        if !self.enabled {
            return;
        }
        let ghost start = buffer.actions@;
        let j = has_action(just, InputAction::Jump);
        let i = has_action(just, InputAction::Interact);
        let l = has_action(just, InputAction::LockOn);
        if j {
            buffer.push(InputAction::Jump, now);
        }
        if i {
            buffer.push(InputAction::Interact, now);
        }
        if l {
            buffer.push(InputAction::LockOn, now);
        }
        assert(buffer.actions@ =~= start
            + buffered_presses(just@).map_values(|a: InputAction| BufferedAction { action: a, timestamp: now }));
        let s = InputState {
            crouch_pressed: has_action(held, InputAction::Crouch),
            sprint_pressed: has_action(held, InputAction::Sprint),
            aim_pressed: has_action(held, InputAction::Aim),
            lean_left: has_action(held, InputAction::LeanLeft),
            lean_right: has_action(held, InputAction::LeanRight),
            block_pressed: has_action(held, InputAction::Block),
            fire_pressed: has_action(held, InputAction::Fire),
            jump_pressed: j,
            interact_pressed: i,
            lock_on_pressed: l,
            attack_pressed: has_action(just, InputAction::Attack),
            switch_camera_mode_pressed: has_action(just, InputAction::SwitchCameraMode),
            fire_just_pressed: has_action(just, InputAction::Fire),
            reload_pressed: has_action(just, InputAction::Reload),
            reset_camera_pressed: has_action(just, InputAction::ResetCamera),
            next_weapon_pressed: has_action(just, InputAction::NextWeapon),
            prev_weapon_pressed: has_action(just, InputAction::PrevWeapon),
            toggle_inventory_pressed: has_action(just, InputAction::ToggleInventory),
            side_switch_pressed: has_action(just, InputAction::SideSwitch),
            hide_pressed: has_action(just, InputAction::Hide),
            peek_pressed: has_action(just, InputAction::Peek),
            corner_lean_pressed: has_action(just, InputAction::CornerLean),
            zoom_in_pressed: has_action(just, InputAction::ZoomIn),
            zoom_out_pressed: has_action(just, InputAction::ZoomOut),
            select_weapon: weapon_slot_of(just),
            enabled: true,
        };
        *self = s;
    }
}

impl Default for InputState {
    /// Input enabled, every button released.
    fn default() -> (s: Self)
        ensures
            s == released(true),
    {
        InputState {
            jump_pressed: false,
            crouch_pressed: false,
            sprint_pressed: false,
            interact_pressed: false,
            aim_pressed: false,
            lean_left: false,
            lean_right: false,
            lock_on_pressed: false,
            attack_pressed: false,
            block_pressed: false,
            switch_camera_mode_pressed: false,
            fire_pressed: false,
            fire_just_pressed: false,
            reload_pressed: false,
            next_weapon_pressed: false,
            prev_weapon_pressed: false,
            toggle_inventory_pressed: false,
            side_switch_pressed: false,
            hide_pressed: false,
            peek_pressed: false,
            corner_lean_pressed: false,
            reset_camera_pressed: false,
            zoom_in_pressed: false,
            zoom_out_pressed: false,
            select_weapon: None,
            enabled: true,
        }
    }
}

/// A press that is buffered is consumed once: consuming it succeeds and
/// takes exactly one entry out; consuming an action that was not pressed
/// changes nothing.
pub proof fn law_consume_takes_one<T>(s: Seq<BufferedAction<T>>, a: InputAction, i: int)
    requires
        first_buffered(s, a, i),
    ensures
        buffered_actions(s).contains(a),
        s.remove(i).len() == s.len() - 1,
        buffered_actions(s.remove(i)) == buffered_actions(s).remove(i),
{
    assert(buffered_actions(s)[i] == a);
    assert(buffered_actions(s.remove(i)) =~= buffered_actions(s).remove(i));
}

/// With input disabled no action reads as pressed and no weapon is chosen.
pub proof fn law_disabled_input_is_released(action: InputAction)
    ensures
        !spec_just_pressed(released(false), action),
        released(false).select_weapon is None,
        !released(false).enabled,
{
}


/// Whether some key of `keys` is among the `active` ones.
pub open spec fn binding_fires(keys: Seq<u32>, active: Seq<u32>) -> bool {
    exists|k: int| 0 <= k < keys.len() && active.contains(#[trigger] keys[k])
}

/// The actions whose bound keys include an active one, in binding order.
pub open spec fn fired_actions(b: Seq<(InputAction, Vec<u32>)>, active: Seq<u32>) -> Seq<InputAction>
    decreases b.len(),
{
    if b.len() == 0 {
        Seq::empty()
    } else {
        let prev = fired_actions(b.drop_last(), active);
        if binding_fires(b.last().1@, active) { prev.push(b.last().0) } else { prev }
    }
}

/// The keys bound to each action, by the game's key codes.
#[derive(Debug, Clone)]
pub struct InputBindings {
    pub bindings: Vec<(InputAction, Vec<u32>)>,
}

/// Whether `x` is in `v`.
fn has_code(v: &Vec<u32>, x: u32) -> (r: bool)
    ensures
        r == v@.contains(x),
{
    let mut i: usize = 0;
    while i < v.len()
        invariant
            i <= v@.len(),
            forall|j: int| 0 <= j < i ==> v@[j] != x,
        decreases v@.len() - i,
    {
        if v[i] == x {
            return true;
        }
        i = i + 1;
    }
    false
}

/// Whether one of `keys` is among `active`.
fn fires(keys: &Vec<u32>, active: &Vec<u32>) -> (r: bool)
    ensures
        r == binding_fires(keys@, active@),
{
    let mut i: usize = 0;
    while i < keys.len()
        invariant
            i <= keys@.len(),
            forall|k: int| 0 <= k < i ==> !active@.contains(#[trigger] keys@[k]),
        decreases keys@.len() - i,
    {
        if has_code(active, keys[i]) {
            return true;
        }
        i = i + 1;
    }
    false
}

impl InputBindings {
    /// Each action is bound once.
    pub open spec fn wf(&self) -> bool {
        forall|i: int, j: int| 0 <= i < j < self.bindings@.len() ==> self.bindings@[i].0 != self.bindings@[j].0
    }

    /// The actions one of whose keys is active, in binding order.
    pub fn active_actions(&self, active: &Vec<u32>) -> (r: Vec<InputAction>)
        ensures
            r@ == fired_actions(self.bindings@, active@),
    {
        let mut out: Vec<InputAction> = Vec::new();
        let mut i: usize = 0;
        while i < self.bindings.len()
            invariant
                i <= self.bindings@.len(),
                out@ == fired_actions(self.bindings@.take(i as int), active@),
            decreases self.bindings@.len() - i,
        {
            proof {
                assert(self.bindings@.take(i + 1).drop_last() =~= self.bindings@.take(i as int));
            }
            if fires(&self.bindings[i].1, active) {
                out.push(self.bindings[i].0);
            }
            i = i + 1;
        }
        assert(self.bindings@.take(i as int) =~= self.bindings@);
        out
    }

    /// Binds `action` to `key` alone, in place of its keys; an action not
    /// bound yet is added at the end.
    pub fn rebind(&mut self, action: InputAction, key: u32)
        ensures
            old(self).wf() ==> final(self).wf(),
            (exists|i: int| 0 <= i < old(self).bindings@.len() && old(self).bindings@[i].0 == action) ==> {
                &&& final(self).bindings@.len() == old(self).bindings@.len()
                &&& forall|j: int| 0 <= j < old(self).bindings@.len() ==> {
                    &&& final(self).bindings@[j].0 == old(self).bindings@[j].0
                    &&& (old(self).bindings@[j].0 == action ==> final(self).bindings@[j].1@ == seq![key])
                    &&& (old(self).bindings@[j].0 != action ==> final(self).bindings@[j].1@ == old(self).bindings@[j].1@)
                }
            },
            !(exists|i: int| 0 <= i < old(self).bindings@.len() && old(self).bindings@[i].0 == action) ==> {
                &&& final(self).bindings@.len() == old(self).bindings@.len() + 1
                &&& forall|j: int| 0 <= j < old(self).bindings@.len() ==> {
                    &&& final(self).bindings@[j].0 == old(self).bindings@[j].0
                    &&& final(self).bindings@[j].1@ == old(self).bindings@[j].1@
                }
                &&& final(self).bindings@[old(self).bindings@.len() as int].0 == action
                &&& final(self).bindings@[old(self).bindings@.len() as int].1@ == seq![key]
            },
    {
        let ghost before = self.bindings@;
        let mut found = false;
        let mut i: usize = 0;
        while i < self.bindings.len()
            invariant
                i <= self.bindings@.len(),
                self.bindings@.len() == before.len(),
                found == (exists|k: int| 0 <= k < i && before[k].0 == action),
                forall|j: int| 0 <= j < before.len() ==> self.bindings@[j].0 == before[j].0,
                forall|j: int| 0 <= j < i && before[j].0 == action ==> self.bindings@[j].1@ == seq![key],
                forall|j: int| 0 <= j < before.len() && !(j < i && before[j].0 == action) ==> self.bindings@[j].1@ == before[j].1@,
            decreases self.bindings@.len() - i,
        {
            let ghost was_found = found;
            if self.bindings[i].0 == action {
                let mut keys: Vec<u32> = Vec::new();
                keys.push(key);
                self.bindings.set(i, (action, keys));
                found = true;
                assert(before[i as int].0 == action);
            }
            proof {
                if !found {
                    assert forall|k: int| 0 <= k < i + 1 implies before[k].0 != action by {
                        if k < i {
                            if before[k].0 == action {
                                assert(exists|k2: int| 0 <= k2 < i && before[k2].0 == action);
                            }
                        }
                    }
                }
            }
            i = i + 1;
        }
        if !found {
            let mut keys: Vec<u32> = Vec::new();
            keys.push(key);
            self.bindings.push((action, keys));
            proof {
                assert forall|j: int| 0 <= j < before.len() implies before[j].0 != action by {
                    if before[j].0 == action {
                        assert(exists|k: int| 0 <= k < i && before[k].0 == action);
                    }
                }
            }
        }
        proof {
            if old(self).wf() {
                assert forall|a: int, b: int| 0 <= a < b < self.bindings@.len() implies self.bindings@[a].0 != self.bindings@[b].0 by {
                    if b < before.len() {
                        assert(before[a].0 != before[b].0);
                    } else {
                        assert(self.bindings@[b].0 == action);
                        assert(before[a].0 != action);
                    }
                }
            }
        }
    }
}


/// The continuous buttons (crouch, sprint, aim, leaning, block, fire) read
/// pressed exactly while their action is held, whatever was pressed this
/// frame; the press buttons (jump, interact, lock-on, attack, a shot, weapon
/// keys) read only what was pressed this frame, whatever is held.
pub proof fn law_held_and_pressed_buttons(
    held: Seq<InputAction>,
    held2: Seq<InputAction>,
    just: Seq<InputAction>,
    just2: Seq<InputAction>,
)
    ensures
        ({
            let st = state_from(held, just);
            &&& st.crouch_pressed == held.contains(InputAction::Crouch)
            &&& st.sprint_pressed == held.contains(InputAction::Sprint)
            &&& st.aim_pressed == held.contains(InputAction::Aim)
            &&& st.lean_left == held.contains(InputAction::LeanLeft)
            &&& st.lean_right == held.contains(InputAction::LeanRight)
            &&& st.block_pressed == held.contains(InputAction::Block)
            &&& st.fire_pressed == held.contains(InputAction::Fire)
            &&& st.jump_pressed == just.contains(InputAction::Jump)
            &&& st.interact_pressed == just.contains(InputAction::Interact)
            &&& st.lock_on_pressed == just.contains(InputAction::LockOn)
            &&& st.attack_pressed == just.contains(InputAction::Attack)
            &&& st.fire_just_pressed == just.contains(InputAction::Fire)
        }),
        ({
            let a = state_from(held, just);
            let b = state_from(held, just2);
            &&& a.crouch_pressed == b.crouch_pressed
            &&& a.sprint_pressed == b.sprint_pressed
            &&& a.aim_pressed == b.aim_pressed
            &&& a.lean_left == b.lean_left
            &&& a.lean_right == b.lean_right
            &&& a.block_pressed == b.block_pressed
            &&& a.fire_pressed == b.fire_pressed
        }),
        ({
            let a = state_from(held, just);
            let c = state_from(held2, just);
            &&& a.jump_pressed == c.jump_pressed
            &&& a.interact_pressed == c.interact_pressed
            &&& a.lock_on_pressed == c.lock_on_pressed
            &&& a.attack_pressed == c.attack_pressed
            &&& a.fire_just_pressed == c.fire_just_pressed
            &&& a.select_weapon == c.select_weapon
        }),
{
}

} // verus!
