use crate::handle_set::Handle;
use crate::loading::{handle_ids, lemma_handle_ids_push, Barrier, LoadState};
use vstd::prelude::*;

verus! {

/// How many sprites the character is made of: twelve variants and the body.
pub const SPRITE_COUNT: usize = 13;

///////////////////
// Sprite States //
///////////////////

/// The state tag of the eye. `Hidden` draws no eye at all.
#[derive(Clone, Copy, PartialEq, Eq, Structural, Debug)]
pub enum EyeState {
    Hidden,
    Facing,
    Looking,
}

/// The state tag of the head.
#[derive(Clone, Copy, PartialEq, Eq, Structural, Debug)]
pub enum HeadState {
    Neutral,
    Sad,
    Surprise,
    Talk,
}

/// The state tag of the left arm.
#[derive(Clone, Copy, PartialEq, Eq, Structural, Debug)]
pub enum LArmState {
    Hip,
    Shrug,
}

/// The state tag of the right arm.
#[derive(Clone, Copy, PartialEq, Eq, Structural, Debug)]
pub enum RArmState {
    Hangin,
    Shrug,
}

/// The state tag of the tail.
#[derive(Clone, Copy, PartialEq, Eq, Structural, Debug)]
pub enum TailState {
    Flip,
    Flop,
}

/////////////////////
// Parts and Table //
/////////////////////

/// A body region whose variants exclude one another.
#[derive(Clone, Copy, PartialEq, Eq, Structural, Debug)]
pub enum Group {
    Eye,
    Head,
    LeftArm,
    RightArm,
    Tail,
}

/// One sprite of the character, in the order in which they are spawned.
#[derive(Clone, Copy, PartialEq, Eq, Structural, Debug)]
pub enum Part {
    EyeFacing,
    EyeLooking,
    HeadNeutral,
    HeadSad,
    HeadSurprise,
    HeadTalk,
    LArmHip,
    LArmShrug,
    Body,
    RArmHangin,
    RArmShrug,
    TailFlip,
    TailFlop,
}

/// Whether a sprite is drawn.
#[derive(Clone, Copy, PartialEq, Eq, Structural, Debug)]
pub enum Visibility {
    Visible,
    Hidden,
}

/// The place of a sprite in the arena that holds all sprites.
#[derive(Clone, Copy, PartialEq, Eq, Structural, Debug)]
pub struct Entity {
    pub index: usize,
}

/// One renderable sprite: its image, its draw order (higher is nearer to the
/// viewer) and whether it is drawn.
#[derive(Clone, Copy, PartialEq, Eq, Structural, Debug)]
pub struct Sprite {
    pub image: Handle,
    pub layer: u8,
    pub visibility: Visibility,
}

/// The position of a part in the spawn order.
pub open spec fn part_index(part: Part) -> int {
    match part {
        Part::EyeFacing => 0,
        Part::EyeLooking => 1,
        Part::HeadNeutral => 2,
        Part::HeadSad => 3,
        Part::HeadSurprise => 4,
        Part::HeadTalk => 5,
        Part::LArmHip => 6,
        Part::LArmShrug => 7,
        Part::Body => 8,
        Part::RArmHangin => 9,
        Part::RArmShrug => 10,
        Part::TailFlip => 11,
        Part::TailFlop => 12,
    }
}

/// The part at a position of the spawn order.
pub open spec fn part_at(index: int) -> Part {
    if index == 0 {
        Part::EyeFacing
    } else if index == 1 {
        Part::EyeLooking
    } else if index == 2 {
        Part::HeadNeutral
    } else if index == 3 {
        Part::HeadSad
    } else if index == 4 {
        Part::HeadSurprise
    } else if index == 5 {
        Part::HeadTalk
    } else if index == 6 {
        Part::LArmHip
    } else if index == 7 {
        Part::LArmShrug
    } else if index == 8 {
        Part::Body
    } else if index == 9 {
        Part::RArmHangin
    } else if index == 10 {
        Part::RArmShrug
    } else if index == 11 {
        Part::TailFlip
    } else {
        Part::TailFlop
    }
}

/// The group a part is a variant of; the body belongs to none.
pub open spec fn group_of(part: Part) -> Option<Group> {
    match part {
        Part::EyeFacing | Part::EyeLooking => Some(Group::Eye),
        Part::HeadNeutral | Part::HeadSad | Part::HeadSurprise | Part::HeadTalk => Some(
            Group::Head,
        ),
        Part::LArmHip | Part::LArmShrug => Some(Group::LeftArm),
        Part::Body => None,
        Part::RArmHangin | Part::RArmShrug => Some(Group::RightArm),
        Part::TailFlip | Part::TailFlop => Some(Group::Tail),
    }
}

/// The draw order, back to front: tail, right arm, body, left arm, head, eye.
pub open spec fn layer_of(part: Part) -> u8 {
    match part {
        Part::TailFlip | Part::TailFlop => 0,
        Part::RArmHangin | Part::RArmShrug => 1,
        Part::Body => 2,
        Part::LArmHip | Part::LArmShrug => 3,
        Part::HeadNeutral | Part::HeadSad | Part::HeadSurprise | Part::HeadTalk => 4,
        Part::EyeFacing | Part::EyeLooking => 5,
    }
}

/// Whether a part is drawn when the character is spawned: the body, and in
/// each group the variant of the group's initial state.
pub open spec fn shown_at_spawn(part: Part) -> bool {
    match part {
        Part::EyeFacing | Part::HeadNeutral | Part::LArmHip | Part::Body | Part::RArmHangin
        | Part::TailFlip => true,
        _ => false,
    }
}

/// The resource path of a part's image.
pub open spec fn path_of(part: Part) -> Seq<char> {
    match part {
        Part::EyeFacing => "vincubus/sprites/5_Eye_Facing.png"@,
        Part::EyeLooking => "vincubus/sprites/5_Eye_Looking.png"@,
        Part::HeadNeutral => "vincubus/sprites/4_Head_Neutral.png"@,
        Part::HeadSad => "vincubus/sprites/4_Head_Sad.png"@,
        Part::HeadSurprise => "vincubus/sprites/4_Head_Surprise.png"@,
        Part::HeadTalk => "vincubus/sprites/4_Head_Talk.png"@,
        Part::LArmHip => "vincubus/sprites/3_L_On_Hip.png"@,
        Part::LArmShrug => "vincubus/sprites/3_L_Shrug.png"@,
        Part::Body => "vincubus/sprites/2_Body.png"@,
        Part::RArmHangin => "vincubus/sprites/1_R_Hangin.png"@,
        Part::RArmShrug => "vincubus/sprites/1_R_Shrug.png"@,
        Part::TailFlip => "vincubus/sprites/0_Tail_1.png"@,
        Part::TailFlop => "vincubus/sprites/0_Tail_2.png"@,
    }
}

/// The visibility that stands for "drawn" or "not drawn".
pub open spec fn visibility_of(shown: bool) -> Visibility {
    if shown {
        Visibility::Visible
    } else {
        Visibility::Hidden
    }
}

impl Part {
    /// All parts, in spawn order.
    pub fn all() -> (parts: [Part; 13])
        ensures
            forall|i: int| 0 <= i < 13 ==> parts[i] == part_at(i),
    {
        [
            Part::EyeFacing,
            Part::EyeLooking,
            Part::HeadNeutral,
            Part::HeadSad,
            Part::HeadSurprise,
            Part::HeadTalk,
            Part::LArmHip,
            Part::LArmShrug,
            Part::Body,
            Part::RArmHangin,
            Part::RArmShrug,
            Part::TailFlip,
            Part::TailFlop,
        ]
    }

    /// The position of the part in the spawn order.
    pub fn index(self) -> (index: usize)
        ensures
            index == part_index(self),
            index < 13,
            part_at(index as int) == self,
    {
        match self {
            Part::EyeFacing => 0,
            Part::EyeLooking => 1,
            Part::HeadNeutral => 2,
            Part::HeadSad => 3,
            Part::HeadSurprise => 4,
            Part::HeadTalk => 5,
            Part::LArmHip => 6,
            Part::LArmShrug => 7,
            Part::Body => 8,
            Part::RArmHangin => 9,
            Part::RArmShrug => 10,
            Part::TailFlip => 11,
            Part::TailFlop => 12,
        }
    }

    /// The group the part is a variant of; the body belongs to none.
    pub fn group(self) -> (group: Option<Group>)
        ensures
            group == group_of(self),
    {
        match self {
            Part::EyeFacing | Part::EyeLooking => Some(Group::Eye),
            Part::HeadNeutral | Part::HeadSad | Part::HeadSurprise | Part::HeadTalk => Some(
                Group::Head,
            ),
            Part::LArmHip | Part::LArmShrug => Some(Group::LeftArm),
            Part::Body => None,
            Part::RArmHangin | Part::RArmShrug => Some(Group::RightArm),
            Part::TailFlip | Part::TailFlop => Some(Group::Tail),
        }
    }

    /// The draw order of the part's sprite, back to front.
    pub fn layer(self) -> (layer: u8)
        ensures
            layer == layer_of(self),
    {
        match self {
            Part::TailFlip | Part::TailFlop => 0,
            Part::RArmHangin | Part::RArmShrug => 1,
            Part::Body => 2,
            Part::LArmHip | Part::LArmShrug => 3,
            Part::HeadNeutral | Part::HeadSad | Part::HeadSurprise | Part::HeadTalk => 4,
            Part::EyeFacing | Part::EyeLooking => 5,
        }
    }

    /// Whether the part's sprite is drawn when the character is spawned.
    pub fn initial_visibility(self) -> (visibility: Visibility)
        ensures
            visibility == visibility_of(shown_at_spawn(self)),
    {
        match self {
            Part::EyeFacing | Part::HeadNeutral | Part::LArmHip | Part::Body | Part::RArmHangin
            | Part::TailFlip => Visibility::Visible,
            _ => Visibility::Hidden,
        }
    }

    /// The resource path of the part's image.
    pub fn path(self) -> (path: &'static str)
        ensures
            path@ == path_of(self),
    {
        match self {
            Part::EyeFacing => "vincubus/sprites/5_Eye_Facing.png",
            Part::EyeLooking => "vincubus/sprites/5_Eye_Looking.png",
            Part::HeadNeutral => "vincubus/sprites/4_Head_Neutral.png",
            Part::HeadSad => "vincubus/sprites/4_Head_Sad.png",
            Part::HeadSurprise => "vincubus/sprites/4_Head_Surprise.png",
            Part::HeadTalk => "vincubus/sprites/4_Head_Talk.png",
            Part::LArmHip => "vincubus/sprites/3_L_On_Hip.png",
            Part::LArmShrug => "vincubus/sprites/3_L_Shrug.png",
            Part::Body => "vincubus/sprites/2_Body.png",
            Part::RArmHangin => "vincubus/sprites/1_R_Hangin.png",
            Part::RArmShrug => "vincubus/sprites/1_R_Shrug.png",
            Part::TailFlip => "vincubus/sprites/0_Tail_1.png",
            Part::TailFlop => "vincubus/sprites/0_Tail_2.png",
        }
    }
}

///////////////
// Character //
///////////////

/// The variant that an eye state selects; a hidden eye selects none.
pub open spec fn eye_part(state: EyeState) -> Option<Part> {
    match state {
        EyeState::Hidden => None,
        EyeState::Facing => Some(Part::EyeFacing),
        EyeState::Looking => Some(Part::EyeLooking),
    }
}

/// The variant that a state of the head selects.
pub open spec fn head_part(state: HeadState) -> Part {
    match state {
        HeadState::Neutral => Part::HeadNeutral,
        HeadState::Sad => Part::HeadSad,
        HeadState::Surprise => Part::HeadSurprise,
        HeadState::Talk => Part::HeadTalk,
    }
}

/// The variant that a state of the left arm selects.
pub open spec fn l_arm_part(state: LArmState) -> Part {
    match state {
        LArmState::Hip => Part::LArmHip,
        LArmState::Shrug => Part::LArmShrug,
    }
}

/// The variant that a state of the right arm selects.
pub open spec fn r_arm_part(state: RArmState) -> Part {
    match state {
        RArmState::Hangin => Part::RArmHangin,
        RArmState::Shrug => Part::RArmShrug,
    }
}

/// The variant that a state of the tail selects.
pub open spec fn tail_part(state: TailState) -> Part {
    match state {
        TailState::Flip => Part::TailFlip,
        TailState::Flop => Part::TailFlop,
    }
}

/// The sprites with one of them drawn or not drawn; an entity outside the
/// arena changes nothing.
pub open spec fn show(sprites: Seq<Sprite>, entity: Entity, shown: bool) -> Seq<Sprite> {
    if entity.index < sprites.len() {
        sprites.update(
            entity.index as int,
            Sprite {
                image: sprites[entity.index as int].image,
                layer: sprites[entity.index as int].layer,
                visibility: visibility_of(shown),
            },
        )
    } else {
        sprites
    }
}

/// The sprite that the character has just been built with for a part.
pub open spec fn spawned_sprite(part: Part, image: Handle) -> Sprite {
    Sprite { image, layer: layer_of(part), visibility: visibility_of(shown_at_spawn(part)) }
}

/// The thirteen sprites of a freshly built character, in spawn order.
pub open spec fn spawned_sprites(images: Seq<Handle>) -> Seq<Sprite> {
    Seq::new(13, |i: int| spawned_sprite(part_at(i), images[i]))
}

/// A resolver found that the character names a sprite that is not in the arena.
#[derive(Clone, Copy, PartialEq, Eq, Structural, Debug)]
pub struct MissingSprite {
    pub part: Part,
}

/// What the message of a missing sprite says: the group, and in brackets the
/// variant.
pub open spec fn missing_message(part: Part) -> Seq<char> {
    match part {
        Part::EyeFacing => "Ol vinc is missing an eye! (facing)"@,
        Part::EyeLooking => "Ol vinc is missing an eye! (looking)"@,
        Part::HeadNeutral => "Ol vinc is missing a head! (neutral)"@,
        Part::HeadSad => "Ol vinc is missing a head! (sad)"@,
        Part::HeadSurprise => "Ol vinc is missing a head! (surprise)"@,
        Part::HeadTalk => "Ol vinc is missing a head! (talk)"@,
        Part::LArmHip => "Ol vinc is missing an l_arm! (hip)"@,
        Part::LArmShrug => "Ol vinc is missing an l_arm! (shrug)"@,
        Part::Body => "Ol vinc is missing a body!"@,
        Part::RArmHangin => "Ol vinc is missing an r_arm! (hangin)"@,
        Part::RArmShrug => "Ol vinc is missing an r_arm! (shrug)"@,
        Part::TailFlip => "Ol vinc is missing a tail! (flip)"@,
        Part::TailFlop => "Ol vinc is missing a tail! (flop)"@,
    }
}

impl MissingSprite {
    /// The error in words: which group lacks which variant.
    pub fn message(&self) -> (text: String)
        ensures
            text@ == missing_message(self.part),
    {
        match self.part {
            Part::EyeFacing => "Ol vinc is missing an eye! (facing)".to_owned(),
            Part::EyeLooking => "Ol vinc is missing an eye! (looking)".to_owned(),
            Part::HeadNeutral => "Ol vinc is missing a head! (neutral)".to_owned(),
            Part::HeadSad => "Ol vinc is missing a head! (sad)".to_owned(),
            Part::HeadSurprise => "Ol vinc is missing a head! (surprise)".to_owned(),
            Part::HeadTalk => "Ol vinc is missing a head! (talk)".to_owned(),
            Part::LArmHip => "Ol vinc is missing an l_arm! (hip)".to_owned(),
            Part::LArmShrug => "Ol vinc is missing an l_arm! (shrug)".to_owned(),
            Part::Body => "Ol vinc is missing a body!".to_owned(),
            Part::RArmHangin => "Ol vinc is missing an r_arm! (hangin)".to_owned(),
            Part::RArmShrug => "Ol vinc is missing an r_arm! (shrug)".to_owned(),
            Part::TailFlip => "Ol vinc is missing a tail! (flip)".to_owned(),
            Part::TailFlop => "Ol vinc is missing a tail! (flop)".to_owned(),
        }
    }
}

/// The character: the root that owns its thirteen sprites by their places in
/// the arena, with one state tag per group and a note of which tags were
/// written since they were last resolved.
#[derive(Clone, Copy, PartialEq, Eq, Structural, Debug)]
pub struct Vincubus {
    eye_facing: Entity,
    eye_looking: Entity,
    head_neutral: Entity,
    head_sad: Entity,
    head_surprise: Entity,
    head_talk: Entity,
    l_arm_hip: Entity,
    l_arm_shrug: Entity,
    body: Entity,
    r_arm_hangin: Entity,
    r_arm_shrug: Entity,
    tail_flip: Entity,
    tail_flop: Entity,
    eye: EyeState,
    head: HeadState,
    l_arm: LArmState,
    r_arm: RArmState,
    tail: TailState,
    eye_changed: bool,
    head_changed: bool,
    l_arm_changed: bool,
    r_arm_changed: bool,
    tail_changed: bool,
}

impl Vincubus {
    /// Where the sprite of a part lives.
    pub closed spec fn entity_of(self, part: Part) -> Entity {
        match part {
            Part::EyeFacing => self.eye_facing,
            Part::EyeLooking => self.eye_looking,
            Part::HeadNeutral => self.head_neutral,
            Part::HeadSad => self.head_sad,
            Part::HeadSurprise => self.head_surprise,
            Part::HeadTalk => self.head_talk,
            Part::LArmHip => self.l_arm_hip,
            Part::LArmShrug => self.l_arm_shrug,
            Part::Body => self.body,
            Part::RArmHangin => self.r_arm_hangin,
            Part::RArmShrug => self.r_arm_shrug,
            Part::TailFlip => self.tail_flip,
            Part::TailFlop => self.tail_flop,
        }
    }

    /// The state tag of the eye.
    pub closed spec fn eye_state(self) -> EyeState {
        self.eye
    }

    /// The state tag of the head.
    pub closed spec fn head_state(self) -> HeadState {
        self.head
    }

    /// The state tag of the left arm.
    pub closed spec fn l_arm_state(self) -> LArmState {
        self.l_arm
    }

    /// The state tag of the right arm.
    pub closed spec fn r_arm_state(self) -> RArmState {
        self.r_arm
    }

    /// The state tag of the tail.
    pub closed spec fn tail_state(self) -> TailState {
        self.tail
    }

    /// Whether the state tag of a group was written since it was last resolved.
    pub closed spec fn changed(self, group: Group) -> bool {
        match group {
            Group::Eye => self.eye_changed,
            Group::Head => self.head_changed,
            Group::LeftArm => self.l_arm_changed,
            Group::RightArm => self.r_arm_changed,
            Group::Tail => self.tail_changed,
        }
    }

    /// Whether two characters differ at most in the state tag of one group
    /// and in whether that tag was changed.
    pub open spec fn same_except(self, other: Vincubus, group: Group) -> bool {
        &&& forall|part: Part| #[trigger] self.entity_of(part) == other.entity_of(part)
        &&& forall|g: Group| g != group ==> #[trigger] self.changed(g) == other.changed(g)
        &&& group != Group::Eye ==> self.eye_state() == other.eye_state()
        &&& group != Group::Head ==> self.head_state() == other.head_state()
        &&& group != Group::LeftArm ==> self.l_arm_state() == other.l_arm_state()
        &&& group != Group::RightArm ==> self.r_arm_state() == other.r_arm_state()
        &&& group != Group::Tail ==> self.tail_state() == other.tail_state()
    }

    /// The variant that the state tag of a group selects.
    pub open spec fn selected(self, group: Group) -> Option<Part> {
        match group {
            Group::Eye => eye_part(self.eye_state()),
            Group::Head => Some(head_part(self.head_state())),
            Group::LeftArm => Some(l_arm_part(self.l_arm_state())),
            Group::RightArm => Some(r_arm_part(self.r_arm_state())),
            Group::Tail => Some(tail_part(self.tail_state())),
        }
    }

    /// Whether the sprite of a part is not in the arena.
    pub open spec fn missing(self, sprites: Seq<Sprite>, part: Part) -> bool {
        self.entity_of(part).index >= sprites.len()
    }

    /// The first variant of a group, in spawn order, whose sprite is not in
    /// the arena.
    pub open spec fn first_missing(self, sprites: Seq<Sprite>, group: Group) -> Option<Part> {
        match group {
            Group::Eye => if self.missing(sprites, Part::EyeFacing) {
                Some(Part::EyeFacing)
            } else if self.missing(sprites, Part::EyeLooking) {
                Some(Part::EyeLooking)
            } else {
                None
            },
            Group::Head => if self.missing(sprites, Part::HeadNeutral) {
                Some(Part::HeadNeutral)
            } else if self.missing(sprites, Part::HeadSad) {
                Some(Part::HeadSad)
            } else if self.missing(sprites, Part::HeadSurprise) {
                Some(Part::HeadSurprise)
            } else if self.missing(sprites, Part::HeadTalk) {
                Some(Part::HeadTalk)
            } else {
                None
            },
            Group::LeftArm => if self.missing(sprites, Part::LArmHip) {
                Some(Part::LArmHip)
            } else if self.missing(sprites, Part::LArmShrug) {
                Some(Part::LArmShrug)
            } else {
                None
            },
            Group::RightArm => if self.missing(sprites, Part::RArmHangin) {
                Some(Part::RArmHangin)
            } else if self.missing(sprites, Part::RArmShrug) {
                Some(Part::RArmShrug)
            } else {
                None
            },
            Group::Tail => if self.missing(sprites, Part::TailFlip) {
                Some(Part::TailFlip)
            } else if self.missing(sprites, Part::TailFlop) {
                Some(Part::TailFlop)
            } else {
                None
            },
        }
    }

    /// The sprites with one variant drawn exactly if it is the selected one.
    pub open spec fn show_part(self, sprites: Seq<Sprite>, part: Part, selected: Option<Part>) -> Seq<
        Sprite,
    > {
        show(sprites, self.entity_of(part), selected == Some(part))
    }

    /// The sprites after a group is resolved: every variant of the group is
    /// visited in spawn order and drawn exactly if the group's state tag
    /// selects it.
    pub open spec fn resolve(self, sprites: Seq<Sprite>, group: Group) -> Seq<Sprite> {
        let sel = self.selected(group);
        match group {
            Group::Eye => self.show_part(
                self.show_part(sprites, Part::EyeFacing, sel),
                Part::EyeLooking,
                sel,
            ),
            Group::Head => self.show_part(
                self.show_part(
                    self.show_part(
                        self.show_part(sprites, Part::HeadNeutral, sel),
                        Part::HeadSad,
                        sel,
                    ),
                    Part::HeadSurprise,
                    sel,
                ),
                Part::HeadTalk,
                sel,
            ),
            Group::LeftArm => self.show_part(
                self.show_part(sprites, Part::LArmHip, sel),
                Part::LArmShrug,
                sel,
            ),
            Group::RightArm => self.show_part(
                self.show_part(sprites, Part::RArmHangin, sel),
                Part::RArmShrug,
                sel,
            ),
            Group::Tail => self.show_part(
                self.show_part(sprites, Part::TailFlip, sel),
                Part::TailFlop,
                sel,
            ),
        }
    }

    /// What one run of a group's resolver does to the sprites: nothing while
    /// the state tag is unchanged or a sprite is missing, else `resolve`.
    pub open spec fn updated(self, sprites: Seq<Sprite>, group: Group) -> Seq<Sprite> {
        if self.changed(group) && self.first_missing(sprites, group) is None {
            self.resolve(sprites, group)
        } else {
            sprites
        }
    }

    /// What one run of a group's resolver returns: the first missing sprite
    /// if the state tag was changed and a sprite is missing.
    pub open spec fn outcome(self, sprites: Seq<Sprite>, group: Group) -> Result<
        (),
        MissingSprite,
    > {
        if self.changed(group) {
            match self.first_missing(sprites, group) {
                Some(part) => Err(MissingSprite { part }),
                None => Ok(()),
            }
        } else {
            Ok(())
        }
    }

    /// The character as it is built with its first sprite at the place
    /// `base` of the arena: its sprites follow one another in spawn order,
    /// every group is in its initial state, and every state tag is still to
    /// be resolved.
    pub open spec fn is_fresh_at(self, base: nat) -> bool {
        &&& forall|part: Part| #[trigger] self.entity_of(part).index == base + part_index(part)
        &&& self.eye_state() == EyeState::Facing
        &&& self.head_state() == HeadState::Neutral
        &&& self.l_arm_state() == LArmState::Hip
        &&& self.r_arm_state() == RArmState::Hangin
        &&& self.tail_state() == TailState::Flip
        &&& forall|group: Group| #[trigger] self.changed(group)
    }

    /// The character is well formed in an arena: each of its sprites is in
    /// the arena and no two parts share a sprite.
    pub open spec fn wf(self, sprites: Seq<Sprite>) -> bool {
        &&& forall|part: Part| #[trigger] self.entity_of(part).index < sprites.len()
        &&& forall|p: Part, q: Part|
            p != q ==> #[trigger] self.entity_of(p) != #[trigger] self.entity_of(q)
    }
}

///////////////////
// Spawn Command //
///////////////////

impl Vincubus {
    /// Builds the character in one step: appends its thirteen sprites to the
    /// arena, each with its image, draw order and initial visibility, and
    /// returns the root that owns them, with every group in its initial
    /// state and every state tag still to be resolved.
    pub fn spawn(images: &[Handle; 13], sprites: &mut Vec<Sprite>) -> (vincubus: Vincubus)
        requires
            old(sprites).len() + 13 <= usize::MAX,
        ensures
            final(sprites)@ == old(sprites)@ + spawned_sprites(images@),
            vincubus.is_fresh_at(old(sprites)@.len()),
            vincubus.wf(final(sprites)@),
    {
        let base: usize = sprites.len();
        let ghost before = sprites@;
        let parts = Part::all();
        let mut i: usize = 0;
        while i < 13
            invariant
                i <= 13,
                base == before.len(),
                base + 13 <= usize::MAX,
                forall|k: int| 0 <= k < 13 ==> parts[k] == part_at(k),
                sprites@ == before + spawned_sprites(images@).take(i as int),
            decreases 13 - i,
        {
            let part = parts[i];
            sprites.push(
                Sprite {
                    image: images[i],
                    layer: part.layer(),
                    visibility: part.initial_visibility(),
                },
            );
            assert(spawned_sprites(images@).take(i + 1) == spawned_sprites(images@).take(
                i as int,
            ).push(spawned_sprites(images@)[i as int]));
            i += 1;
        }
        assert(spawned_sprites(images@).take(13) == spawned_sprites(images@));
        Vincubus {
            eye_facing: Entity { index: base },
            eye_looking: Entity { index: base + 1 },
            head_neutral: Entity { index: base + 2 },
            head_sad: Entity { index: base + 3 },
            head_surprise: Entity { index: base + 4 },
            head_talk: Entity { index: base + 5 },
            l_arm_hip: Entity { index: base + 6 },
            l_arm_shrug: Entity { index: base + 7 },
            body: Entity { index: base + 8 },
            r_arm_hangin: Entity { index: base + 9 },
            r_arm_shrug: Entity { index: base + 10 },
            tail_flip: Entity { index: base + 11 },
            tail_flop: Entity { index: base + 12 },
            eye: EyeState::Facing,
            head: HeadState::Neutral,
            l_arm: LArmState::Hip,
            r_arm: RArmState::Hangin,
            tail: TailState::Flip,
            eye_changed: true,
            head_changed: true,
            l_arm_changed: true,
            r_arm_changed: true,
            tail_changed: true,
        }
    }

    /// Where the sprite of a part lives.
    pub fn entity(&self, part: Part) -> (entity: Entity)
        ensures
            entity == self.entity_of(part),
    {
        match part {
            Part::EyeFacing => self.eye_facing,
            Part::EyeLooking => self.eye_looking,
            Part::HeadNeutral => self.head_neutral,
            Part::HeadSad => self.head_sad,
            Part::HeadSurprise => self.head_surprise,
            Part::HeadTalk => self.head_talk,
            Part::LArmHip => self.l_arm_hip,
            Part::LArmShrug => self.l_arm_shrug,
            Part::Body => self.body,
            Part::RArmHangin => self.r_arm_hangin,
            Part::RArmShrug => self.r_arm_shrug,
            Part::TailFlip => self.tail_flip,
            Part::TailFlop => self.tail_flop,
        }
    }

    /// The sprites that are parented under the root: all thirteen, in spawn
    /// order.
    pub fn children(&self) -> (children: Vec<Entity>)
        ensures
            children@ == Seq::new(13, |i: int| self.entity_of(part_at(i))),
    {
        let children = vec![
            self.eye_facing,
            self.eye_looking,
            self.head_neutral,
            self.head_sad,
            self.head_surprise,
            self.head_talk,
            self.l_arm_hip,
            self.l_arm_shrug,
            self.body,
            self.r_arm_hangin,
            self.r_arm_shrug,
            self.tail_flip,
            self.tail_flop,
        ];
        assert(children@ =~= Seq::new(13, |i: int| self.entity_of(part_at(i))));
        children
    }
}

///////////
// Setup //
///////////

/// Sets the character up from the images that were requested for its
/// thirteen sprites, in spawn order: first every image is registered with a
/// new barrier, then the character is built in one step. So no poll of the
/// barrier can come before a registration, and nobody sees a character that
/// is built in part.
pub fn setup(images: &[Handle; 13], sprites: &mut Vec<Sprite>) -> (built: (LoadState, Vincubus))
    requires
        old(sprites).len() + 13 <= usize::MAX,
    ensures
        built.0.wf(),
        built.0@ == (Barrier { ready: false, pending: handle_ids(images@) }),
        final(sprites)@ == old(sprites)@ + spawned_sprites(images@),
        built.1.is_fresh_at(old(sprites)@.len()),
        built.1.wf(final(sprites)@),
{
    let mut load_state = LoadState::new();
    let mut i: usize = 0;
    proof {
        assert(images@.take(0) =~= Seq::<Handle>::empty());
        assert(handle_ids(images@.take(0)) =~= Set::<u64>::empty());
    }
    while i < 13
        invariant
            i <= 13,
            load_state.wf(),
            load_state@ == (Barrier { ready: false, pending: handle_ids(images@.take(i as int)) }),
        decreases 13 - i,
    {
        load_state.register(images[i]);
        proof {
            lemma_handle_ids_push(images@.take(i as int), images@[i as int]);
            assert(images@.take(i + 1) == images@.take(i as int).push(images@[i as int]));
        }
        i += 1;
    }
    assert(images@.take(13) == images@);
    let vincubus = Vincubus::spawn(images, sprites);
    (load_state, vincubus)
}

//////////////////////////
// Sprite State Systems //
//////////////////////////

/// Draws or hides one sprite of the arena and leaves the others alone.
fn set_visible(sprites: &mut Vec<Sprite>, entity: Entity, shown: bool)
    requires
        entity.index < old(sprites).len(),
    ensures
        final(sprites)@ == show(old(sprites)@, entity, shown),
{
    let sprite = sprites[entity.index];
    let visibility = if shown {
        Visibility::Visible
    } else {
        Visibility::Hidden
    };
    sprites[entity.index] = Sprite { image: sprite.image, layer: sprite.layer, visibility };
}

impl Vincubus {
    /// The state tag of the eye.
    pub fn eye(&self) -> (state: EyeState)
        ensures
            state == self.eye_state(),
    {
        self.eye
    }

    /// The state tag of the head.
    pub fn head(&self) -> (state: HeadState)
        ensures
            state == self.head_state(),
    {
        self.head
    }

    /// The state tag of the left arm.
    pub fn l_arm(&self) -> (state: LArmState)
        ensures
            state == self.l_arm_state(),
    {
        self.l_arm
    }

    /// The state tag of the right arm.
    pub fn r_arm(&self) -> (state: RArmState)
        ensures
            state == self.r_arm_state(),
    {
        self.r_arm
    }

    /// The state tag of the tail.
    pub fn tail(&self) -> (state: TailState)
        ensures
            state == self.tail_state(),
    {
        self.tail
    }

    /// Whether the state tag of a group was written since it was last resolved.
    pub fn is_changed(&self, group: Group) -> (changed: bool)
        ensures
            changed == self.changed(group),
    {
        match group {
            Group::Eye => self.eye_changed,
            Group::Head => self.head_changed,
            Group::LeftArm => self.l_arm_changed,
            Group::RightArm => self.r_arm_changed,
            Group::Tail => self.tail_changed,
        }
    }

    /// Writes the eye's state tag. Any state may follow any other; the write
    /// counts as a change even if the value is the one that was there.
    pub fn set_eye(&mut self, state: EyeState)
        ensures
            final(self).eye_state() == state,
            final(self).changed(Group::Eye),
            final(self).same_except(*old(self), Group::Eye),
    {
        self.eye = state;
        self.eye_changed = true;
    }

    /// Writes the head's state tag, as `set_eye` does the eye's.
    pub fn set_head(&mut self, state: HeadState)
        ensures
            final(self).head_state() == state,
            final(self).changed(Group::Head),
            final(self).same_except(*old(self), Group::Head),
    {
        self.head = state;
        self.head_changed = true;
    }

    /// Writes the left arm's state tag, as `set_eye` does the eye's.
    pub fn set_l_arm(&mut self, state: LArmState)
        ensures
            final(self).l_arm_state() == state,
            final(self).changed(Group::LeftArm),
            final(self).same_except(*old(self), Group::LeftArm),
    {
        self.l_arm = state;
        self.l_arm_changed = true;
    }

    /// Writes the right arm's state tag, as `set_eye` does the eye's.
    pub fn set_r_arm(&mut self, state: RArmState)
        ensures
            final(self).r_arm_state() == state,
            final(self).changed(Group::RightArm),
            final(self).same_except(*old(self), Group::RightArm),
    {
        self.r_arm = state;
        self.r_arm_changed = true;
    }

    /// Writes the tail's state tag, as `set_eye` does the eye's.
    pub fn set_tail(&mut self, state: TailState)
        ensures
            final(self).tail_state() == state,
            final(self).changed(Group::Tail),
            final(self).same_except(*old(self), Group::Tail),
    {
        self.tail = state;
        self.tail_changed = true;
    }

    /// Resolves the eye if its state tag was changed: the facing eye is drawn
    /// exactly in state `Facing`, the looking eye exactly in state `Looking`,
    /// and in state `Hidden` neither. Fails, and changes nothing, if one of
    /// the two sprites is not in the arena.
    pub fn update_eye(&mut self, sprites: &mut Vec<Sprite>) -> (result: Result<(), MissingSprite>)
        ensures
            result == old(self).outcome(old(sprites)@, Group::Eye),
            final(sprites)@ == old(self).updated(old(sprites)@, Group::Eye),
            final(self).same_except(*old(self), Group::Eye),
            final(self).eye_state() == old(self).eye_state(),
            final(self).changed(Group::Eye) == (result is Err),
    {
        if !self.eye_changed {
            return Ok(());
        }
        if self.eye_facing.index >= sprites.len() {
            return Err(MissingSprite { part: Part::EyeFacing });
        }
        if self.eye_looking.index >= sprites.len() {
            return Err(MissingSprite { part: Part::EyeLooking });
        }
        set_visible(sprites, self.eye_facing, matches!(self.eye, EyeState::Facing));
        set_visible(sprites, self.eye_looking, matches!(self.eye, EyeState::Looking));
        self.eye_changed = false;
        Ok(())
    }

    /// Resolves the head if its state tag was changed: of its four sprites
    /// exactly the one of the current state is drawn. Fails, and changes
    /// nothing, if one of the four is not in the arena.
    pub fn update_head(&mut self, sprites: &mut Vec<Sprite>) -> (result: Result<(), MissingSprite>)
        ensures
            result == old(self).outcome(old(sprites)@, Group::Head),
            final(sprites)@ == old(self).updated(old(sprites)@, Group::Head),
            final(self).same_except(*old(self), Group::Head),
            final(self).head_state() == old(self).head_state(),
            final(self).changed(Group::Head) == (result is Err),
    {
        if !self.head_changed {
            return Ok(());
        }
        if self.head_neutral.index >= sprites.len() {
            return Err(MissingSprite { part: Part::HeadNeutral });
        }
        if self.head_sad.index >= sprites.len() {
            return Err(MissingSprite { part: Part::HeadSad });
        }
        if self.head_surprise.index >= sprites.len() {
            return Err(MissingSprite { part: Part::HeadSurprise });
        }
        if self.head_talk.index >= sprites.len() {
            return Err(MissingSprite { part: Part::HeadTalk });
        }
        set_visible(sprites, self.head_neutral, matches!(self.head, HeadState::Neutral));
        set_visible(sprites, self.head_sad, matches!(self.head, HeadState::Sad));
        set_visible(sprites, self.head_surprise, matches!(self.head, HeadState::Surprise));
        set_visible(sprites, self.head_talk, matches!(self.head, HeadState::Talk));
        self.head_changed = false;
        Ok(())
    }

    /// Resolves the left arm if its state tag was changed: of its two sprites
    /// exactly the one of the current state is drawn. Fails, and changes
    /// nothing, if one of the two is not in the arena.
    pub fn update_l_arm(&mut self, sprites: &mut Vec<Sprite>) -> (result: Result<
        (),
        MissingSprite,
    >)
        ensures
            result == old(self).outcome(old(sprites)@, Group::LeftArm),
            final(sprites)@ == old(self).updated(old(sprites)@, Group::LeftArm),
            final(self).same_except(*old(self), Group::LeftArm),
            final(self).l_arm_state() == old(self).l_arm_state(),
            final(self).changed(Group::LeftArm) == (result is Err),
    {
        if !self.l_arm_changed {
            return Ok(());
        }
        if self.l_arm_hip.index >= sprites.len() {
            return Err(MissingSprite { part: Part::LArmHip });
        }
        if self.l_arm_shrug.index >= sprites.len() {
            return Err(MissingSprite { part: Part::LArmShrug });
        }
        set_visible(sprites, self.l_arm_hip, matches!(self.l_arm, LArmState::Hip));
        set_visible(sprites, self.l_arm_shrug, matches!(self.l_arm, LArmState::Shrug));
        self.l_arm_changed = false;
        Ok(())
    }

    /// Resolves the right arm if its state tag was changed: of its two
    /// sprites exactly the one of the current state is drawn. Fails, and
    /// changes nothing, if one of the two is not in the arena.
    pub fn update_r_arm(&mut self, sprites: &mut Vec<Sprite>) -> (result: Result<
        (),
        MissingSprite,
    >)
        ensures
            result == old(self).outcome(old(sprites)@, Group::RightArm),
            final(sprites)@ == old(self).updated(old(sprites)@, Group::RightArm),
            final(self).same_except(*old(self), Group::RightArm),
            final(self).r_arm_state() == old(self).r_arm_state(),
            final(self).changed(Group::RightArm) == (result is Err),
    {
        if !self.r_arm_changed {
            return Ok(());
        }
        if self.r_arm_hangin.index >= sprites.len() {
            return Err(MissingSprite { part: Part::RArmHangin });
        }
        if self.r_arm_shrug.index >= sprites.len() {
            return Err(MissingSprite { part: Part::RArmShrug });
        }
        set_visible(sprites, self.r_arm_hangin, matches!(self.r_arm, RArmState::Hangin));
        set_visible(sprites, self.r_arm_shrug, matches!(self.r_arm, RArmState::Shrug));
        self.r_arm_changed = false;
        Ok(())
    }

    /// Resolves the tail if its state tag was changed: of its two sprites
    /// exactly the one of the current state is drawn. Fails, and changes
    /// nothing, if one of the two is not in the arena.
    pub fn update_tail(&mut self, sprites: &mut Vec<Sprite>) -> (result: Result<(), MissingSprite>)
        ensures
            result == old(self).outcome(old(sprites)@, Group::Tail),
            final(sprites)@ == old(self).updated(old(sprites)@, Group::Tail),
            final(self).same_except(*old(self), Group::Tail),
            final(self).tail_state() == old(self).tail_state(),
            final(self).changed(Group::Tail) == (result is Err),
    {
        if !self.tail_changed {
            return Ok(());
        }
        if self.tail_flip.index >= sprites.len() {
            return Err(MissingSprite { part: Part::TailFlip });
        }
        if self.tail_flop.index >= sprites.len() {
            return Err(MissingSprite { part: Part::TailFlop });
        }
        set_visible(sprites, self.tail_flip, matches!(self.tail, TailState::Flip));
        set_visible(sprites, self.tail_flop, matches!(self.tail, TailState::Flop));
        self.tail_changed = false;
        Ok(())
    }
}

//////////
// Laws //
//////////

impl Vincubus {
    /// Whether the sprite of a part is in the arena and drawn.
    pub open spec fn drawn(self, sprites: Seq<Sprite>, part: Part) -> bool {
        &&& !self.missing(sprites, part)
        &&& sprites[self.entity_of(part).index as int].visibility == Visibility::Visible
    }

    /// The variants of a group that are drawn.
    pub open spec fn visible_variants(self, sprites: Seq<Sprite>, group: Group) -> Set<Part> {
        Set::new(|part: Part| group_of(part) == Some(group) && self.drawn(sprites, part))
    }

    /// After a group of a well-formed character is resolved, the drawn
    /// variants of the group are exactly the selected one, or none where the
    /// state selects none.
    pub proof fn lemma_resolve_shows_selected(self, sprites: Seq<Sprite>, group: Group)
        requires
            self.wf(sprites),
        ensures
            self.visible_variants(self.resolve(sprites, group), group) == match self.selected(
                group,
            ) {
                Some(part) => set![part],
                None => Set::<Part>::empty(),
            },
    {
        let after = self.resolve(sprites, group);
        let expected = match self.selected(group) {
            Some(part) => set![part],
            None => Set::<Part>::empty(),
        };
        assert forall|part: Part|
            self.visible_variants(after, group).contains(part) == expected.contains(
                part,
            ) by {
            self.lemma_resolved_sprite(sprites, group, part);
        }
        assert(self.visible_variants(after, group) =~= expected);
    }

    /// After a group of a well-formed character is resolved, the arena is as
    /// long as before; the sprite of each variant of the group is drawn
    /// exactly if it is the selected one; every other sprite of the
    /// character, and the image and draw order of every sprite, are as before.
    pub proof fn lemma_resolved_sprite(self, sprites: Seq<Sprite>, group: Group, part: Part)
        requires
            self.wf(sprites),
        ensures
            self.resolve(sprites, group).len() == sprites.len(),
            self.wf(self.resolve(sprites, group)),
            group_of(part) == Some(group) ==> self.resolve(sprites, group)[self.entity_of(
                part,
            ).index as int] == (Sprite {
                visibility: visibility_of(self.selected(group) == Some(part)),
                ..sprites[self.entity_of(part).index as int]
            }),
            group_of(part) != Some(group) ==> self.resolve(sprites, group)[self.entity_of(
                part,
            ).index as int] == sprites[self.entity_of(part).index as int],
    {
        assert(forall|p: Part| #[trigger] self.entity_of(p).index < sprites.len());
        assert(forall|p: Part, q: Part|
            p != q ==> #[trigger] self.entity_of(p) != #[trigger] self.entity_of(q));
    }

    /// Every group but the eye: after it is resolved exactly one of its
    /// variants is drawn, and its siblings are hidden.
    pub proof fn lemma_exactly_one_visible(self, sprites: Seq<Sprite>, group: Group)
        requires
            self.wf(sprites),
            group != Group::Eye,
        ensures
            self.visible_variants(self.resolve(sprites, group), group).finite(),
            self.visible_variants(self.resolve(sprites, group), group).len() == 1,
    {
        self.lemma_resolve_shows_selected(sprites, group);
    }

    /// The eye: after it is resolved no variant is drawn in state `Hidden`,
    /// and exactly one in states `Facing` and `Looking`.
    pub proof fn lemma_eye_visible_count(self, sprites: Seq<Sprite>)
        requires
            self.wf(sprites),
        ensures
            self.visible_variants(self.resolve(sprites, Group::Eye), Group::Eye).finite(),
            self.visible_variants(self.resolve(sprites, Group::Eye), Group::Eye).len() == (
            if self.eye_state() == EyeState::Hidden {
                0nat
            } else {
                1nat
            }),
    {
        self.lemma_resolve_shows_selected(sprites, Group::Eye);
    }

    /// Resolving a group twice with the same state gives what resolving it
    /// once gives, whatever was written in between that left the selected
    /// variant and the sprites' places as they were.
    pub proof fn lemma_resolve_idempotent(
        self,
        again: Vincubus,
        sprites: Seq<Sprite>,
        group: Group,
    )
        requires
            forall|part: Part| #[trigger] self.entity_of(part) == again.entity_of(part),
            self.selected(group) == again.selected(group),
        ensures
            again.resolve(self.resolve(sprites, group), group) == self.resolve(sprites, group),
    {
        let sel = self.selected(group);
        match group {
            Group::Eye => {
                assert(self.entity_of(Part::EyeFacing) == again.entity_of(Part::EyeFacing));
                assert(self.entity_of(Part::EyeLooking) == again.entity_of(Part::EyeLooking));
                lemma_show_twice_2(
                    sprites,
                    self.entity_of(Part::EyeFacing),
                    sel == Some(Part::EyeFacing),
                    self.entity_of(Part::EyeLooking),
                    sel == Some(Part::EyeLooking),
                );
            },
            Group::Head => {
                assert(self.entity_of(Part::HeadNeutral) == again.entity_of(Part::HeadNeutral));
                assert(self.entity_of(Part::HeadSad) == again.entity_of(Part::HeadSad));
                assert(self.entity_of(Part::HeadSurprise) == again.entity_of(Part::HeadSurprise));
                assert(self.entity_of(Part::HeadTalk) == again.entity_of(Part::HeadTalk));
                lemma_show_twice_4(
                    sprites,
                    self.entity_of(Part::HeadNeutral),
                    sel == Some(Part::HeadNeutral),
                    self.entity_of(Part::HeadSad),
                    sel == Some(Part::HeadSad),
                    self.entity_of(Part::HeadSurprise),
                    sel == Some(Part::HeadSurprise),
                    self.entity_of(Part::HeadTalk),
                    sel == Some(Part::HeadTalk),
                );
            },
            Group::LeftArm => {
                assert(self.entity_of(Part::LArmHip) == again.entity_of(Part::LArmHip));
                assert(self.entity_of(Part::LArmShrug) == again.entity_of(Part::LArmShrug));
                lemma_show_twice_2(
                    sprites,
                    self.entity_of(Part::LArmHip),
                    sel == Some(Part::LArmHip),
                    self.entity_of(Part::LArmShrug),
                    sel == Some(Part::LArmShrug),
                );
            },
            Group::RightArm => {
                assert(self.entity_of(Part::RArmHangin) == again.entity_of(Part::RArmHangin));
                assert(self.entity_of(Part::RArmShrug) == again.entity_of(Part::RArmShrug));
                lemma_show_twice_2(
                    sprites,
                    self.entity_of(Part::RArmHangin),
                    sel == Some(Part::RArmHangin),
                    self.entity_of(Part::RArmShrug),
                    sel == Some(Part::RArmShrug),
                );
            },
            Group::Tail => {
                assert(self.entity_of(Part::TailFlip) == again.entity_of(Part::TailFlip));
                assert(self.entity_of(Part::TailFlop) == again.entity_of(Part::TailFlop));
                lemma_show_twice_2(
                    sprites,
                    self.entity_of(Part::TailFlip),
                    sel == Some(Part::TailFlip),
                    self.entity_of(Part::TailFlop),
                    sel == Some(Part::TailFlop),
                );
            },
        }
    }
}

/// Writing the same visibility to one sprite and then another, twice over,
/// gives what writing them once gives.
proof fn lemma_show_twice_2(sprites: Seq<Sprite>, a: Entity, x: bool, b: Entity, y: bool)
    ensures
        show(show(show(show(sprites, a, x), b, y), a, x), b, y) == show(
            show(sprites, a, x),
            b,
            y,
        ),
{
    let once = show(show(sprites, a, x), b, y);
    let twice = show(show(once, a, x), b, y);
    assert(twice =~= once);
}

/// Writing the same visibility to four sprites in turn, twice over, gives
/// what writing them once gives.
proof fn lemma_show_twice_4(
    sprites: Seq<Sprite>,
    a: Entity,
    x: bool,
    b: Entity,
    y: bool,
    c: Entity,
    z: bool,
    d: Entity,
    w: bool,
)
    ensures
        show(
            show(
                show(show(show(show(show(show(sprites, a, x), b, y), c, z), d, w), a, x), b, y),
                c,
                z,
            ),
            d,
            w,
        ) == show(show(show(show(sprites, a, x), b, y), c, z), d, w),
{
    let s1 = show(sprites, a, x);
    let s2 = show(s1, b, y);
    let s3 = show(s2, c, z);
    let once = show(s3, d, w);
    let t1 = show(once, a, x);
    let t2 = show(t1, b, y);
    let t3 = show(t2, c, z);
    let twice = show(t3, d, w);
    assert(twice.len() == once.len());
    assert forall|i: int| 0 <= i < once.len() implies twice[i] == once[i] by {
        assert(s1[i].image == sprites[i].image);
        assert(s2[i].image == sprites[i].image);
        assert(s3[i].image == sprites[i].image);
        assert(once[i].image == sprites[i].image);
        assert(t1[i].image == sprites[i].image);
        assert(t2[i].image == sprites[i].image);
        assert(t3[i].image == sprites[i].image);
    }
    assert(twice =~= once);
}

impl Vincubus {
    /// Resolving two different groups of a well-formed character gives the
    /// same sprites in either order, as the groups share no sprite.
    pub proof fn lemma_resolve_commutes(self, sprites: Seq<Sprite>, first: Group, second: Group)
        requires
            self.wf(sprites),
            first != second,
        ensures
            self.resolve(self.resolve(sprites, first), second) == self.resolve(
                self.resolve(sprites, second),
                first,
            ),
    {
        if group_rank(first) < group_rank(second) {
            self.lemma_resolve_commutes_in_order(sprites, first, second);
        } else {
            self.lemma_resolve_commutes_in_order(sprites, second, first);
        }
    }

    proof fn lemma_resolve_commutes_in_order(self, sprites: Seq<Sprite>, low: Group, high: Group)
        requires
            self.wf(sprites),
            group_rank(low) < group_rank(high),
        ensures
            self.resolve(self.resolve(sprites, low), high) == self.resolve(
                self.resolve(sprites, high),
                low,
            ),
    {
        let sel_low = self.selected(low);
        let sel_high = self.selected(high);
        assert(forall|p: Part, q: Part|
            p != q ==> #[trigger] self.entity_of(p) != #[trigger] self.entity_of(q));
        match (low, high) {
            (Group::Eye, Group::Head) => {
                lemma_show_commutes_2_4(
                    sprites,
                    self.entity_of(Part::EyeFacing),
                    sel_low == Some(Part::EyeFacing),
                    self.entity_of(Part::EyeLooking),
                    sel_low == Some(Part::EyeLooking),
                    self.entity_of(Part::HeadNeutral),
                    sel_high == Some(Part::HeadNeutral),
                    self.entity_of(Part::HeadSad),
                    sel_high == Some(Part::HeadSad),
                    self.entity_of(Part::HeadSurprise),
                    sel_high == Some(Part::HeadSurprise),
                    self.entity_of(Part::HeadTalk),
                    sel_high == Some(Part::HeadTalk),
                );
            },
            (Group::Eye, Group::LeftArm) => {
                lemma_show_commutes_2_2(
                    sprites,
                    self.entity_of(Part::EyeFacing),
                    sel_low == Some(Part::EyeFacing),
                    self.entity_of(Part::EyeLooking),
                    sel_low == Some(Part::EyeLooking),
                    self.entity_of(Part::LArmHip),
                    sel_high == Some(Part::LArmHip),
                    self.entity_of(Part::LArmShrug),
                    sel_high == Some(Part::LArmShrug),
                );
            },
            (Group::Eye, Group::RightArm) => {
                lemma_show_commutes_2_2(
                    sprites,
                    self.entity_of(Part::EyeFacing),
                    sel_low == Some(Part::EyeFacing),
                    self.entity_of(Part::EyeLooking),
                    sel_low == Some(Part::EyeLooking),
                    self.entity_of(Part::RArmHangin),
                    sel_high == Some(Part::RArmHangin),
                    self.entity_of(Part::RArmShrug),
                    sel_high == Some(Part::RArmShrug),
                );
            },
            (Group::Eye, Group::Tail) => {
                lemma_show_commutes_2_2(
                    sprites,
                    self.entity_of(Part::EyeFacing),
                    sel_low == Some(Part::EyeFacing),
                    self.entity_of(Part::EyeLooking),
                    sel_low == Some(Part::EyeLooking),
                    self.entity_of(Part::TailFlip),
                    sel_high == Some(Part::TailFlip),
                    self.entity_of(Part::TailFlop),
                    sel_high == Some(Part::TailFlop),
                );
            },
            (Group::Head, Group::LeftArm) => {
                lemma_show_commutes_2_4(
                    sprites,
                    self.entity_of(Part::LArmHip),
                    sel_high == Some(Part::LArmHip),
                    self.entity_of(Part::LArmShrug),
                    sel_high == Some(Part::LArmShrug),
                    self.entity_of(Part::HeadNeutral),
                    sel_low == Some(Part::HeadNeutral),
                    self.entity_of(Part::HeadSad),
                    sel_low == Some(Part::HeadSad),
                    self.entity_of(Part::HeadSurprise),
                    sel_low == Some(Part::HeadSurprise),
                    self.entity_of(Part::HeadTalk),
                    sel_low == Some(Part::HeadTalk),
                );
            },
            (Group::Head, Group::RightArm) => {
                lemma_show_commutes_2_4(
                    sprites,
                    self.entity_of(Part::RArmHangin),
                    sel_high == Some(Part::RArmHangin),
                    self.entity_of(Part::RArmShrug),
                    sel_high == Some(Part::RArmShrug),
                    self.entity_of(Part::HeadNeutral),
                    sel_low == Some(Part::HeadNeutral),
                    self.entity_of(Part::HeadSad),
                    sel_low == Some(Part::HeadSad),
                    self.entity_of(Part::HeadSurprise),
                    sel_low == Some(Part::HeadSurprise),
                    self.entity_of(Part::HeadTalk),
                    sel_low == Some(Part::HeadTalk),
                );
            },
            (Group::Head, Group::Tail) => {
                lemma_show_commutes_2_4(
                    sprites,
                    self.entity_of(Part::TailFlip),
                    sel_high == Some(Part::TailFlip),
                    self.entity_of(Part::TailFlop),
                    sel_high == Some(Part::TailFlop),
                    self.entity_of(Part::HeadNeutral),
                    sel_low == Some(Part::HeadNeutral),
                    self.entity_of(Part::HeadSad),
                    sel_low == Some(Part::HeadSad),
                    self.entity_of(Part::HeadSurprise),
                    sel_low == Some(Part::HeadSurprise),
                    self.entity_of(Part::HeadTalk),
                    sel_low == Some(Part::HeadTalk),
                );
            },
            (Group::LeftArm, Group::RightArm) => {
                lemma_show_commutes_2_2(
                    sprites,
                    self.entity_of(Part::LArmHip),
                    sel_low == Some(Part::LArmHip),
                    self.entity_of(Part::LArmShrug),
                    sel_low == Some(Part::LArmShrug),
                    self.entity_of(Part::RArmHangin),
                    sel_high == Some(Part::RArmHangin),
                    self.entity_of(Part::RArmShrug),
                    sel_high == Some(Part::RArmShrug),
                );
            },
            (Group::LeftArm, Group::Tail) => {
                lemma_show_commutes_2_2(
                    sprites,
                    self.entity_of(Part::LArmHip),
                    sel_low == Some(Part::LArmHip),
                    self.entity_of(Part::LArmShrug),
                    sel_low == Some(Part::LArmShrug),
                    self.entity_of(Part::TailFlip),
                    sel_high == Some(Part::TailFlip),
                    self.entity_of(Part::TailFlop),
                    sel_high == Some(Part::TailFlop),
                );
            },
            (Group::RightArm, Group::Tail) => {
                lemma_show_commutes_2_2(
                    sprites,
                    self.entity_of(Part::RArmHangin),
                    sel_low == Some(Part::RArmHangin),
                    self.entity_of(Part::RArmShrug),
                    sel_low == Some(Part::RArmShrug),
                    self.entity_of(Part::TailFlip),
                    sel_high == Some(Part::TailFlip),
                    self.entity_of(Part::TailFlop),
                    sel_high == Some(Part::TailFlop),
                );
            },
            _ => {},
        }
    }
}

/// The place of a group in the order eye, head, left arm, right arm, tail.
spec fn group_rank(group: Group) -> int {
    match group {
        Group::Eye => 0,
        Group::Head => 1,
        Group::LeftArm => 2,
        Group::RightArm => 3,
        Group::Tail => 4,
    }
}

/// A write to one sprite can change places with writes to two others.
proof fn lemma_show_commutes_2_1(
    sprites: Seq<Sprite>,
    a: Entity,
    x: bool,
    b: Entity,
    y: bool,
    c: Entity,
    z: bool,
)
    requires
        a != c,
        b != c,
    ensures
        show(show(show(sprites, a, x), b, y), c, z) == show(
            show(show(sprites, c, z), a, x),
            b,
            y,
        ),
{
    let s1 = show(sprites, a, x);
    let s2 = show(s1, b, y);
    let left = show(s2, c, z);
    let t1 = show(sprites, c, z);
    let t2 = show(t1, a, x);
    let right = show(t2, b, y);
    assert(left =~= right);
}

/// Writes to two sprites and writes to two others can change places.
proof fn lemma_show_commutes_2_2(
    sprites: Seq<Sprite>,
    a: Entity,
    x: bool,
    b: Entity,
    y: bool,
    c: Entity,
    z: bool,
    d: Entity,
    w: bool,
)
    requires
        a != c,
        a != d,
        b != c,
        b != d,
    ensures
        show(show(show(show(sprites, a, x), b, y), c, z), d, w) == show(
            show(show(show(sprites, c, z), d, w), a, x),
            b,
            y,
        ),
{
    lemma_show_commutes_2_1(sprites, a, x, b, y, c, z);
    lemma_show_commutes_2_1(show(sprites, c, z), a, x, b, y, d, w);
}

/// Writes to two sprites and writes to four others can change places.
proof fn lemma_show_commutes_2_4(
    sprites: Seq<Sprite>,
    a: Entity,
    x: bool,
    b: Entity,
    y: bool,
    c: Entity,
    z: bool,
    d: Entity,
    w: bool,
    e: Entity,
    u: bool,
    f: Entity,
    v: bool,
)
    requires
        a != c,
        a != d,
        a != e,
        a != f,
        b != c,
        b != d,
        b != e,
        b != f,
    ensures
        show(show(show(show(show(show(sprites, a, x), b, y), c, z), d, w), e, u), f, v) == show(
            show(show(show(show(show(sprites, c, z), d, w), e, u), f, v), a, x),
            b,
            y,
        ),
{
    lemma_show_commutes_2_2(sprites, a, x, b, y, c, z, d, w);
    lemma_show_commutes_2_2(show(show(sprites, c, z), d, w), a, x, b, y, e, u, f, v);
}

} // verus!
