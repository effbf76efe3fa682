//! Branching conversations: dialog contents made of complete dialogs made of
//! nodes, and the dialog system that walks through them.

use vstd::prelude::*;

verus! {

/// An answer the player can pick in a node.
#[derive(Debug, Clone)]
pub struct DialogChoice {
    pub id: u32,
    pub name: String,
    pub content: String,
    pub target_dialog_id: u32,
    pub use_random_dialog_id: bool,
    pub use_random_range: bool,
    pub random_id_list: Vec<u32>,
    pub disable_after_select: bool,
    pub disabled: bool,
    pub use_stat_condition: bool,
    pub stat_name: Option<String>,
    pub stat_is_amount: bool,
    pub bool_stat_value: bool,
    pub available: bool,
    pub remote_trigger_name: Option<String>,
    pub activate_remote_trigger: bool,
}

/// One line of a conversation.
#[derive(Debug, Clone)]
pub struct DialogNode {
    pub id: u32,
    pub name: String,
    pub speaker_name: String,
    pub content: String,
    pub show_previous_on_options: bool,
    pub choices: Vec<DialogChoice>,
    /// The conversation ends at this node.
    pub is_end: bool,
    pub use_next_button: bool,
    pub use_sound: bool,
    pub sound_path: Option<String>,
    pub animation_name: Option<String>,
    pub animation_on_player: bool,
    pub disable_after_select: bool,
    pub jump_to_if_disabled: Option<u32>,
    pub disabled: bool,
    pub set_next_complete_dialog: bool,
    pub set_new_complete_dialog: bool,
    pub new_complete_dialog_id: Option<u32>,
    pub remote_trigger_name: Option<String>,
    pub activate_remote_trigger: bool,
}

/// A conversation: its nodes in order and how it is played.
#[derive(Debug, Clone)]
pub struct CompleteDialog {
    pub id: u32,
    pub name: String,
    pub nodes: Vec<DialogNode>,
    pub play_without_pausing: bool,
    pub play_automatically: bool,
    pub pause_player_actions: bool,
    pub pause_player_movement: bool,
    pub can_use_input_for_next: bool,
    pub show_full_on_input: bool,
    pub show_word_by_word: bool,
    pub show_letter_by_letter: bool,
    pub use_custom_text_alignment: bool,
    pub stop_on_distance: bool,
    pub rewind_on_stop: bool,
    pub play_on_trigger_enter: bool,
}

/// The conversations an NPC or object offers.
#[derive(Debug, Clone)]
pub struct DialogContent {
    pub id: u32,
    pub scene_id: u32,
    pub complete_dialogs: Vec<CompleteDialog>,
    /// The conversation played next.
    pub current_dialog_index: usize,
    pub show_owner_name: bool,
    pub active: bool,
    pub in_process: bool,
    pub playing_external: bool,
    pub use_animations: bool,
    pub dialogue_active_animation: String,
    pub player_animations_enabled: bool,
}

/// How a dialog system plays conversations.
#[derive(Debug, Clone, Copy, PartialEq, Eq)]
pub struct DialogSettings {
    pub enabled: bool,
    pub play_without_pausing: bool,
    pub show_word_by_word: bool,
    pub show_letter_by_letter: bool,
    pub play_automatically: bool,
    pub can_use_input_for_next: bool,
    pub show_full_on_input: bool,
    pub use_custom_text_alignment: bool,
    pub stop_on_distance: bool,
    /// On close, step back to the node before the one shown.
    pub rewind_on_stop: bool,
    pub use_animations: bool,
}

/// Where a dialog system is in its conversation.
#[derive(Debug, Clone, Copy, PartialEq, Eq)]
pub struct DialogProgress {
    /// The node shown.
    pub current_dialog_index: usize,
    pub dialog_active: bool,
    pub dialog_in_process: bool,
    pub text_showing_part_by_part: bool,
    /// Bits of the animated speaker entity.
    pub current_character_animator: Option<u64>,
    pub playing_character_animation: bool,
    pub playing_player_animation: bool,
}

/// The conversation being shown to a player.
#[derive(Debug, Clone)]
pub struct DialogSystem {
    pub settings: DialogSettings,
    pub current_dialog_content: Option<DialogContent>,
    pub previous_dialog_content: Option<DialogContent>,
    pub progress: DialogProgress,
    pub current_dialog_line: String,
    pub previous_dialog_line: String,
}

impl Default for DialogChoice {
    /// An available choice that leads to the first node.
    fn default() -> (d: Self)
        ensures
            d.id == 0,
            d.name@ == Seq::<char>::empty(),
            d.content@ == Seq::<char>::empty(),
            d.target_dialog_id == 0,
            !d.use_random_dialog_id,
            !d.use_random_range,
            d.random_id_list@.len() == 0,
            !d.disable_after_select,
            !d.disabled,
            !d.use_stat_condition,
            d.stat_name is None,
            !d.stat_is_amount,
            !d.bool_stat_value,
            d.available,
            d.remote_trigger_name is None,
            !d.activate_remote_trigger,
    {
        DialogChoice {
            id: 0,
            name: String::new(),
            content: String::new(),
            target_dialog_id: 0,
            use_random_dialog_id: false,
            use_random_range: false,
            random_id_list: Vec::new(),
            disable_after_select: false,
            disabled: false,
            use_stat_condition: false,
            stat_name: None,
            stat_is_amount: false,
            bool_stat_value: false,
            available: true,
            remote_trigger_name: None,
            activate_remote_trigger: false,
        }
    }
}

impl Default for DialogNode {
    /// An empty node that waits for the next button.
    fn default() -> (d: Self)
        ensures
            d.id == 0,
            d.name@ == Seq::<char>::empty(),
            d.speaker_name@ == Seq::<char>::empty(),
            d.content@ == Seq::<char>::empty(),
            !d.show_previous_on_options,
            d.choices@.len() == 0,
            !d.is_end,
            d.use_next_button,
            !d.use_sound,
            d.sound_path is None,
            d.animation_name is None,
            !d.animation_on_player,
            !d.disable_after_select,
            d.jump_to_if_disabled is None,
            !d.disabled,
            !d.set_next_complete_dialog,
            !d.set_new_complete_dialog,
            d.new_complete_dialog_id is None,
            d.remote_trigger_name is None,
            !d.activate_remote_trigger,
    {
        DialogNode {
            id: 0,
            name: String::new(),
            speaker_name: String::new(),
            content: String::new(),
            show_previous_on_options: false,
            choices: Vec::new(),
            is_end: false,
            use_next_button: true,
            use_sound: false,
            sound_path: None,
            animation_name: None,
            animation_on_player: false,
            disable_after_select: false,
            jump_to_if_disabled: None,
            disabled: false,
            set_next_complete_dialog: false,
            set_new_complete_dialog: false,
            new_complete_dialog_id: None,
            remote_trigger_name: None,
            activate_remote_trigger: false,
        }
    }
}

impl Default for CompleteDialog {
    /// An empty conversation that plays automatically.
    fn default() -> (d: Self)
        ensures
            d.id == 0,
            d.name@ == Seq::<char>::empty(),
            d.nodes@.len() == 0,
            !d.play_without_pausing,
            d.play_automatically,
            !d.pause_player_actions,
            !d.pause_player_movement,
            d.can_use_input_for_next,
            d.show_full_on_input,
            !d.show_word_by_word,
            !d.show_letter_by_letter,
            !d.use_custom_text_alignment,
            !d.stop_on_distance,
            !d.rewind_on_stop,
            !d.play_on_trigger_enter,
    {
        CompleteDialog {
            id: 0,
            name: String::new(),
            nodes: Vec::new(),
            play_without_pausing: false,
            play_automatically: true,
            pause_player_actions: false,
            pause_player_movement: false,
            can_use_input_for_next: true,
            show_full_on_input: true,
            show_word_by_word: false,
            show_letter_by_letter: false,
            use_custom_text_alignment: false,
            stop_on_distance: false,
            rewind_on_stop: false,
            play_on_trigger_enter: false,
        }
    }
}

impl Default for DialogContent {
    /// Dialog content with no conversation, showing its owner's name.
    fn default() -> (d: Self)
        ensures
            d.id == 0,
            d.scene_id == 0,
            d.complete_dialogs@.len() == 0,
            d.current_dialog_index == 0,
            d.show_owner_name,
            !d.active,
            !d.in_process,
            !d.playing_external,
            !d.use_animations,
            d.dialogue_active_animation@ == "Dialogue Active"@,
            d.player_animations_enabled,
    {
        DialogContent {
            id: 0,
            scene_id: 0,
            complete_dialogs: Vec::new(),
            current_dialog_index: 0,
            show_owner_name: true,
            active: false,
            in_process: false,
            playing_external: false,
            use_animations: false,
            dialogue_active_animation: "Dialogue Active".to_owned(),
            player_animations_enabled: true,
        }
    }
}

impl Default for DialogSystem {
    /// An enabled dialog system showing nothing.
    fn default() -> (d: Self)
        ensures
            d.settings == (DialogSettings {
                enabled: true,
                play_without_pausing: false,
                show_word_by_word: false,
                show_letter_by_letter: false,
                play_automatically: true,
                can_use_input_for_next: true,
                show_full_on_input: true,
                use_custom_text_alignment: false,
                stop_on_distance: false,
                rewind_on_stop: false,
                use_animations: false,
            }),
            d.progress == (DialogProgress {
                current_dialog_index: 0,
                dialog_active: false,
                dialog_in_process: false,
                text_showing_part_by_part: false,
                current_character_animator: None,
                playing_character_animation: false,
                playing_player_animation: false,
            }),
            d.current_dialog_content is None,
            d.previous_dialog_content is None,
            d.current_dialog_line@ == Seq::<char>::empty(),
            d.previous_dialog_line@ == Seq::<char>::empty(),
    {
        DialogSystem {
            settings: DialogSettings {
                enabled: true,
                play_without_pausing: false,
                show_word_by_word: false,
                show_letter_by_letter: false,
                play_automatically: true,
                can_use_input_for_next: true,
                show_full_on_input: true,
                use_custom_text_alignment: false,
                stop_on_distance: false,
                rewind_on_stop: false,
                use_animations: false,
            },
            current_dialog_content: None,
            previous_dialog_content: None,
            progress: DialogProgress {
                current_dialog_index: 0,
                dialog_active: false,
                dialog_in_process: false,
                text_showing_part_by_part: false,
                current_character_animator: None,
                playing_character_animation: false,
                playing_player_animation: false,
            },
            current_dialog_line: String::new(),
            previous_dialog_line: String::new(),
        }
    }
}

/// The progress after closing a conversation that was shown.
pub open spec fn closed_progress(settings: DialogSettings, p: DialogProgress) -> DialogProgress {
    DialogProgress {
        current_dialog_index: if settings.rewind_on_stop && p.current_dialog_index > 0 {
            (p.current_dialog_index - 1) as usize
        } else {
            p.current_dialog_index
        },
        dialog_active: false,
        dialog_in_process: false,
        text_showing_part_by_part: false,
        ..p
    }
}

/// `new` is `old` after closing the conversation shown: with no
/// conversation nothing changes; otherwise the node index steps back by one
/// when rewinding is on and it is past the first node, the dialog becomes
/// inactive, both lines are emptied and the conversation is dropped.
pub open spec fn closed(old: DialogSystem, new: DialogSystem) -> bool {
    &&& new.settings == old.settings
    &&& new.previous_dialog_content == old.previous_dialog_content
    &&& new.current_dialog_content.is_none()
    &&& if old.current_dialog_content.is_none() {
        &&& new.progress == old.progress
        &&& new.current_dialog_line@ == old.current_dialog_line@
        &&& new.previous_dialog_line@ == old.previous_dialog_line@
    } else {
        &&& new.progress == closed_progress(old.settings, old.progress)
        &&& new.current_dialog_line@ == Seq::<char>::empty()
        &&& new.previous_dialog_line@ == Seq::<char>::empty()
    }
}

/// The nodes of the conversation the content is at, if it has one there.
pub open spec fn current_nodes(s: DialogSystem) -> Option<Seq<DialogNode>> {
    match s.current_dialog_content {
        Some(c) => if c.current_dialog_index < c.complete_dialogs@.len() {
            Some(c.complete_dialogs@[c.current_dialog_index as int].nodes@)
        } else {
            None
        },
        None => None,
    }
}

/// `new` is `old` after a "next" request, where `moved` tells whether the
/// node index moved: with no conversation at a valid index nothing changes;
/// at or past an end node the dialog closes; otherwise the index moves one
/// node on, and the dialog closes when that passes the last node or shows
/// the new node's text otherwise.
pub open spec fn advanced(old: DialogSystem, new: DialogSystem, moved: bool) -> bool {
    match current_nodes(old) {
        None => {
            &&& !moved
            &&& new.settings == old.settings
            &&& new.current_dialog_content == old.current_dialog_content
            &&& new.previous_dialog_content == old.previous_dialog_content
            &&& new.progress == old.progress
            &&& new.current_dialog_line@ == old.current_dialog_line@
            &&& new.previous_dialog_line@ == old.previous_dialog_line@
        },
        Some(nodes) => {
            let i = old.progress.current_dialog_index as int;
            let stepped = DialogProgress { current_dialog_index: (i + 1) as usize, ..old.progress };
            if i >= nodes.len() || nodes[i].is_end {
                &&& !moved
                &&& closed(old, new)
            } else if i + 1 >= nodes.len() {
                &&& moved
                &&& new.settings == old.settings
                &&& new.previous_dialog_content == old.previous_dialog_content
                &&& new.current_dialog_content.is_none()
                &&& new.progress == closed_progress(old.settings, stepped)
                &&& new.current_dialog_line@ == Seq::<char>::empty()
                &&& new.previous_dialog_line@ == Seq::<char>::empty()
            } else {
                &&& moved
                &&& new.settings == old.settings
                &&& new.current_dialog_content == old.current_dialog_content
                &&& new.previous_dialog_content == old.previous_dialog_content
                &&& new.progress == DialogProgress {
                    text_showing_part_by_part: old.progress.text_showing_part_by_part
                        || old.settings.show_word_by_word || old.settings.show_letter_by_letter,
                    ..stepped
                }
                &&& new.current_dialog_line@ == nodes[i + 1].content@
                &&& new.previous_dialog_line@ == old.previous_dialog_line@
            }
        },
    }
}

/// Closes the conversation shown, if any.
pub fn close_dialog(dialog_system: &mut DialogSystem)
    ensures
        closed(*old(dialog_system), *final(dialog_system)),
{
    if dialog_system.current_dialog_content.is_none() {
        return;
    }
    if dialog_system.settings.rewind_on_stop && dialog_system.progress.current_dialog_index > 0 {
        dialog_system.progress.current_dialog_index = dialog_system.progress.current_dialog_index - 1;
    }
    dialog_system.progress.dialog_active = false;
    dialog_system.progress.dialog_in_process = false;
    dialog_system.progress.text_showing_part_by_part = false;
    dialog_system.current_dialog_line = String::new();
    dialog_system.previous_dialog_line = String::new();
    dialog_system.current_dialog_content = None;
}

/// What the node shown says about the next step.
enum DialogStep {
    /// No conversation at a valid index.
    NoDialog,
    /// The dialog is at or past an end node.
    Close,
    /// The following node's text.
    Next(String),
    /// The node shown is the last one.
    Last,
}

fn peek_step(dialog_system: &DialogSystem) -> (r: DialogStep)
    ensures
        match current_nodes(*dialog_system) {
            None => r is NoDialog,
            Some(nodes) => {
                let i = dialog_system.progress.current_dialog_index as int;
                &&& nodes.len() <= usize::MAX
                &&& (r is Close <==> (i >= nodes.len() || nodes[i].is_end))
                &&& (r is Last <==> (i < nodes.len() && !nodes[i].is_end && i + 1 >= nodes.len()))
                &&& (r matches DialogStep::Next(line) ==> i + 1 < nodes.len() && !nodes[i].is_end
                    && line@ == nodes[i + 1].content@)
                &&& !(r is NoDialog)
            },
        },
{
    match &dialog_system.current_dialog_content {
        None => DialogStep::NoDialog,
        Some(content) => {
            if content.current_dialog_index >= content.complete_dialogs.len() {
                return DialogStep::NoDialog;
            }
            let complete = &content.complete_dialogs[content.current_dialog_index];
            let i = dialog_system.progress.current_dialog_index;
            let len = complete.nodes.len();
            if i >= len || complete.nodes[i].is_end {
                DialogStep::Close
            } else if i + 1 < len {
                DialogStep::Next(complete.nodes[i + 1].content.clone())
            } else {
                DialogStep::Last
            }
        },
    }
}

/// Moves to the next node of the conversation shown, closing it at an end
/// node or past the last node. Returns whether the node index moved, which
/// is when the caller records the time of the step.
pub fn advance_dialog(dialog_system: &mut DialogSystem) -> (moved: bool)
    ensures
        advanced(*old(dialog_system), *final(dialog_system), moved),
{
    let step = peek_step(dialog_system);
    match step {
        DialogStep::NoDialog => false,
        DialogStep::Close => {
            close_dialog(dialog_system);
            false
        },
        DialogStep::Last => {
            dialog_system.progress.current_dialog_index = dialog_system.progress.current_dialog_index + 1;
            close_dialog(dialog_system);
            true
        },
        DialogStep::Next(line) => {
            dialog_system.progress.current_dialog_index = dialog_system.progress.current_dialog_index + 1;
            dialog_system.current_dialog_line = line;
            if dialog_system.settings.show_word_by_word || dialog_system.settings.show_letter_by_letter {
                dialog_system.progress.text_showing_part_by_part = true;
            }
            true
        },
    }
}

/// Closing twice is the same as closing once.
pub proof fn law_close_is_idempotent(a: DialogSystem, b: DialogSystem, c: DialogSystem)
    requires
        closed(a, b),
        closed(b, c),
    ensures
        c.current_dialog_content.is_none(),
        c.progress == b.progress,
        c.current_dialog_line@ == b.current_dialog_line@,
        c.previous_dialog_line@ == b.previous_dialog_line@,
        c.settings == a.settings,
{
}

/// After a "next" request on a conversation, the dialog either shows a node
/// one further than before, within the conversation, or is closed.
pub proof fn law_advance_moves_one_or_closes(a: DialogSystem, b: DialogSystem, moved: bool)
    requires
        advanced(a, b, moved),
        current_nodes(a).is_some(),
        current_nodes(a).unwrap().len() <= usize::MAX,
    ensures
        b.current_dialog_content.is_none() || (moved && b.progress.current_dialog_index == a.progress.current_dialog_index + 1
            && b.progress.current_dialog_index < current_nodes(a).unwrap().len()),
{
}

} // verus!
