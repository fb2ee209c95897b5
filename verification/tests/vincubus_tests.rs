use wheel::handle_set::Handle;
use wheel::vincubus::{
    Entity, EyeState, Group, HeadState, LArmState, MissingSprite, Part, RArmState, Sprite,
    TailState, Vincubus, Visibility, SPRITE_COUNT,
};

fn images() -> [Handle; 13] {
    let mut images = [Handle { id: 0 }; 13];
    for (i, image) in images.iter_mut().enumerate() {
        image.id = 100 + i as u64;
    }
    images
}

fn spawned() -> (Vincubus, Vec<Sprite>) {
    let mut sprites = Vec::new();
    let vincubus = Vincubus::spawn(&images(), &mut sprites);
    (vincubus, sprites)
}

fn visible(vincubus: &Vincubus, sprites: &[Sprite], group: Group) -> Vec<Part> {
    Part::all()
        .into_iter()
        .filter(|part| part.group() == Some(group))
        .filter(|part| sprites[vincubus.entity(*part).index].visibility == Visibility::Visible)
        .collect()
}

fn resolve_all(vincubus: &mut Vincubus, sprites: &mut Vec<Sprite>) {
    assert_eq!(vincubus.update_eye(sprites), Ok(()));
    assert_eq!(vincubus.update_head(sprites), Ok(()));
    assert_eq!(vincubus.update_l_arm(sprites), Ok(()));
    assert_eq!(vincubus.update_r_arm(sprites), Ok(()));
    assert_eq!(vincubus.update_tail(sprites), Ok(()));
}

#[test]
fn spawn_appends_thirteen_sprites_in_order() {
    let (vincubus, sprites) = spawned();
    assert_eq!(SPRITE_COUNT, 13);
    assert_eq!(sprites.len(), 13);
    for (i, part) in Part::all().into_iter().enumerate() {
        assert_eq!(part.index(), i);
        assert_eq!(vincubus.entity(part), Entity { index: i });
        assert_eq!(sprites[i].image, Handle { id: 100 + i as u64 });
        assert_eq!(sprites[i].layer, part.layer());
        assert_eq!(sprites[i].visibility, part.initial_visibility());
    }
}

#[test]
fn spawn_after_other_sprites_keeps_them() {
    let other = Sprite { image: Handle { id: 7 }, layer: 9, visibility: Visibility::Hidden };
    let mut sprites = vec![other, other];
    let vincubus = Vincubus::spawn(&images(), &mut sprites);
    assert_eq!(sprites.len(), 15);
    assert_eq!(sprites[0], other);
    assert_eq!(sprites[1], other);
    assert_eq!(vincubus.entity(Part::EyeFacing), Entity { index: 2 });
    assert_eq!(vincubus.entity(Part::TailFlop), Entity { index: 14 });
    assert_eq!(sprites[14].image, Handle { id: 112 });
}

#[test]
fn spawn_sets_the_initial_states() {
    let (vincubus, sprites) = spawned();
    assert_eq!(vincubus.eye(), EyeState::Facing);
    assert_eq!(vincubus.head(), HeadState::Neutral);
    assert_eq!(vincubus.l_arm(), LArmState::Hip);
    assert_eq!(vincubus.r_arm(), RArmState::Hangin);
    assert_eq!(vincubus.tail(), TailState::Flip);
    assert_eq!(visible(&vincubus, &sprites, Group::Eye), vec![Part::EyeFacing]);
    assert_eq!(visible(&vincubus, &sprites, Group::Head), vec![Part::HeadNeutral]);
    assert_eq!(visible(&vincubus, &sprites, Group::LeftArm), vec![Part::LArmHip]);
    assert_eq!(visible(&vincubus, &sprites, Group::RightArm), vec![Part::RArmHangin]);
    assert_eq!(visible(&vincubus, &sprites, Group::Tail), vec![Part::TailFlip]);
    assert_eq!(sprites[vincubus.entity(Part::Body).index].visibility, Visibility::Visible);
    for group in [Group::Eye, Group::Head, Group::LeftArm, Group::RightArm, Group::Tail] {
        assert!(vincubus.is_changed(group));
    }
}

#[test]
fn draw_order_runs_from_tail_to_eye() {
    assert_eq!(Part::TailFlip.layer(), 0);
    assert_eq!(Part::TailFlop.layer(), 0);
    assert_eq!(Part::RArmHangin.layer(), 1);
    assert_eq!(Part::RArmShrug.layer(), 1);
    assert_eq!(Part::Body.layer(), 2);
    assert_eq!(Part::LArmHip.layer(), 3);
    assert_eq!(Part::LArmShrug.layer(), 3);
    assert_eq!(Part::HeadNeutral.layer(), 4);
    assert_eq!(Part::HeadSad.layer(), 4);
    assert_eq!(Part::HeadSurprise.layer(), 4);
    assert_eq!(Part::HeadTalk.layer(), 4);
    assert_eq!(Part::EyeFacing.layer(), 5);
    assert_eq!(Part::EyeLooking.layer(), 5);
}

#[test]
fn groups_hold_their_variants() {
    let count = |group: Group| {
        Part::all().into_iter().filter(|part| part.group() == Some(group)).count()
    };
    assert_eq!(count(Group::Eye), 2);
    assert_eq!(count(Group::Head), 4);
    assert_eq!(count(Group::LeftArm), 2);
    assert_eq!(count(Group::RightArm), 2);
    assert_eq!(count(Group::Tail), 2);
    assert_eq!(Part::Body.group(), None);
}

#[test]
fn sprite_paths_are_the_fixed_table() {
    assert_eq!(Part::TailFlip.path(), "vincubus/sprites/0_Tail_1.png");
    assert_eq!(Part::TailFlop.path(), "vincubus/sprites/0_Tail_2.png");
    assert_eq!(Part::RArmHangin.path(), "vincubus/sprites/1_R_Hangin.png");
    assert_eq!(Part::RArmShrug.path(), "vincubus/sprites/1_R_Shrug.png");
    assert_eq!(Part::Body.path(), "vincubus/sprites/2_Body.png");
    assert_eq!(Part::LArmHip.path(), "vincubus/sprites/3_L_On_Hip.png");
    assert_eq!(Part::LArmShrug.path(), "vincubus/sprites/3_L_Shrug.png");
    assert_eq!(Part::HeadNeutral.path(), "vincubus/sprites/4_Head_Neutral.png");
    assert_eq!(Part::HeadSad.path(), "vincubus/sprites/4_Head_Sad.png");
    assert_eq!(Part::HeadSurprise.path(), "vincubus/sprites/4_Head_Surprise.png");
    assert_eq!(Part::HeadTalk.path(), "vincubus/sprites/4_Head_Talk.png");
    assert_eq!(Part::EyeFacing.path(), "vincubus/sprites/5_Eye_Facing.png");
    assert_eq!(Part::EyeLooking.path(), "vincubus/sprites/5_Eye_Looking.png");
}

#[test]
fn children_are_all_thirteen_sprites() {
    let (vincubus, _) = spawned();
    let children = vincubus.children();
    let expected: Vec<Entity> = (0..13).map(|index| Entity { index }).collect();
    assert_eq!(children, expected);
}

#[test]
fn every_head_state_shows_exactly_its_variant() {
    let cases = [
        (HeadState::Neutral, Part::HeadNeutral),
        (HeadState::Sad, Part::HeadSad),
        (HeadState::Surprise, Part::HeadSurprise),
        (HeadState::Talk, Part::HeadTalk),
    ];
    let (mut vincubus, mut sprites) = spawned();
    for (state, part) in cases {
        vincubus.set_head(state);
        assert_eq!(vincubus.update_head(&mut sprites), Ok(()));
        assert_eq!(visible(&vincubus, &sprites, Group::Head), vec![part]);
    }
}

#[test]
fn every_arm_and_tail_state_shows_exactly_its_variant() {
    let (mut vincubus, mut sprites) = spawned();
    for (state, part) in [(LArmState::Shrug, Part::LArmShrug), (LArmState::Hip, Part::LArmHip)] {
        vincubus.set_l_arm(state);
        assert_eq!(vincubus.update_l_arm(&mut sprites), Ok(()));
        assert_eq!(visible(&vincubus, &sprites, Group::LeftArm), vec![part]);
    }
    for (state, part) in
        [(RArmState::Shrug, Part::RArmShrug), (RArmState::Hangin, Part::RArmHangin)]
    {
        vincubus.set_r_arm(state);
        assert_eq!(vincubus.update_r_arm(&mut sprites), Ok(()));
        assert_eq!(visible(&vincubus, &sprites, Group::RightArm), vec![part]);
    }
    for (state, part) in [(TailState::Flop, Part::TailFlop), (TailState::Flip, Part::TailFlip)] {
        vincubus.set_tail(state);
        assert_eq!(vincubus.update_tail(&mut sprites), Ok(()));
        assert_eq!(visible(&vincubus, &sprites, Group::Tail), vec![part]);
    }
}

#[test]
fn hidden_eye_shows_no_variant() {
    let (mut vincubus, mut sprites) = spawned();
    vincubus.set_eye(EyeState::Hidden);
    assert_eq!(vincubus.update_eye(&mut sprites), Ok(()));
    assert_eq!(visible(&vincubus, &sprites, Group::Eye), Vec::<Part>::new());
    vincubus.set_eye(EyeState::Looking);
    assert_eq!(vincubus.update_eye(&mut sprites), Ok(()));
    assert_eq!(visible(&vincubus, &sprites, Group::Eye), vec![Part::EyeLooking]);
    vincubus.set_eye(EyeState::Facing);
    assert_eq!(vincubus.update_eye(&mut sprites), Ok(()));
    assert_eq!(visible(&vincubus, &sprites, Group::Eye), vec![Part::EyeFacing]);
}

#[test]
fn resolving_the_same_state_twice_changes_nothing() {
    let (mut vincubus, mut sprites) = spawned();
    vincubus.set_head(HeadState::Talk);
    assert_eq!(vincubus.update_head(&mut sprites), Ok(()));
    let once = sprites.clone();
    vincubus.set_head(HeadState::Talk);
    assert!(vincubus.is_changed(Group::Head));
    assert_eq!(vincubus.update_head(&mut sprites), Ok(()));
    assert_eq!(sprites, once);
}

#[test]
fn resolver_does_nothing_without_a_change() {
    let (mut vincubus, mut sprites) = spawned();
    resolve_all(&mut vincubus, &mut sprites);
    for group in [Group::Eye, Group::Head, Group::LeftArm, Group::RightArm, Group::Tail] {
        assert!(!vincubus.is_changed(group));
    }
    // a sprite touched from outside stays as it is while no tag is written
    let at = vincubus.entity(Part::HeadSad).index;
    sprites[at].visibility = Visibility::Visible;
    let touched = sprites.clone();
    resolve_all(&mut vincubus, &mut sprites);
    assert_eq!(sprites, touched);
    // and is put right once the tag is written again
    vincubus.set_head(HeadState::Neutral);
    assert_eq!(vincubus.update_head(&mut sprites), Ok(()));
    assert_eq!(visible(&vincubus, &sprites, Group::Head), vec![Part::HeadNeutral]);
}

#[test]
fn resolving_one_group_leaves_the_others() {
    let (mut vincubus, mut sprites) = spawned();
    resolve_all(&mut vincubus, &mut sprites);
    let before = sprites.clone();
    vincubus.set_tail(TailState::Flop);
    assert_eq!(vincubus.update_tail(&mut sprites), Ok(()));
    for part in Part::all() {
        let at = vincubus.entity(part).index;
        if part.group() != Some(Group::Tail) {
            assert_eq!(sprites[at], before[at]);
        }
        assert_eq!(sprites[at].image, before[at].image);
        assert_eq!(sprites[at].layer, before[at].layer);
    }
}

#[test]
fn groups_resolve_in_any_order() {
    let (mut first, mut first_sprites) = spawned();
    let (mut second, mut second_sprites) = spawned();
    for vincubus in [&mut first, &mut second] {
        vincubus.set_eye(EyeState::Looking);
        vincubus.set_head(HeadState::Surprise);
        vincubus.set_tail(TailState::Flop);
    }
    assert_eq!(first.update_eye(&mut first_sprites), Ok(()));
    assert_eq!(first.update_head(&mut first_sprites), Ok(()));
    assert_eq!(first.update_tail(&mut first_sprites), Ok(()));
    assert_eq!(second.update_tail(&mut second_sprites), Ok(()));
    assert_eq!(second.update_head(&mut second_sprites), Ok(()));
    assert_eq!(second.update_eye(&mut second_sprites), Ok(()));
    assert_eq!(first_sprites, second_sprites);
    assert_eq!(first, second);
}

#[test]
fn missing_sprite_is_reported_and_nothing_changes() {
    let (mut vincubus, mut sprites) = spawned();
    sprites.truncate(5);
    let before = sprites.clone();
    let same = vincubus;
    vincubus.set_head(HeadState::Sad);
    assert_eq!(vincubus.update_head(&mut sprites), Err(MissingSprite { part: Part::HeadTalk }));
    assert_eq!(sprites, before);
    assert!(vincubus.is_changed(Group::Head));
    assert_eq!(vincubus.update_tail(&mut sprites), Err(MissingSprite { part: Part::TailFlip }));
    assert_eq!(vincubus.update_l_arm(&mut sprites), Err(MissingSprite { part: Part::LArmHip }));
    assert_eq!(
        vincubus.update_r_arm(&mut sprites),
        Err(MissingSprite { part: Part::RArmHangin })
    );
    assert_eq!(vincubus.update_eye(&mut sprites), Ok(()));
    assert_eq!(sprites, before);
    assert_eq!(same.entity(Part::HeadTalk), Entity { index: 5 });
    sprites.truncate(1);
    vincubus.set_eye(EyeState::Hidden);
    assert_eq!(vincubus.update_eye(&mut sprites), Err(MissingSprite { part: Part::EyeLooking }));
    sprites.clear();
    assert_eq!(vincubus.update_eye(&mut sprites), Err(MissingSprite { part: Part::EyeFacing }));
}

#[test]
fn missing_sprite_message_names_group_and_variant() {
    assert_eq!(
        MissingSprite { part: Part::EyeLooking }.message(),
        "Ol vinc is missing an eye! (looking)"
    );
    assert_eq!(
        MissingSprite { part: Part::HeadTalk }.message(),
        "Ol vinc is missing a head! (talk)"
    );
    assert_eq!(
        MissingSprite { part: Part::LArmHip }.message(),
        "Ol vinc is missing an l_arm! (hip)"
    );
    assert_eq!(
        MissingSprite { part: Part::RArmShrug }.message(),
        "Ol vinc is missing an r_arm! (shrug)"
    );
    assert_eq!(
        MissingSprite { part: Part::TailFlop }.message(),
        "Ol vinc is missing a tail! (flop)"
    );
    let mut messages: Vec<String> =
        Part::all().into_iter().map(|part| MissingSprite { part }.message()).collect();
    messages.sort();
    messages.dedup();
    assert_eq!(messages.len(), 13);
}

#[test]
fn setup_registers_every_image_before_the_character_is_built() {
    let mut sprites = Vec::new();
    let (mut load_state, vincubus) = wheel::vincubus::setup(&images(), &mut sprites);
    assert_eq!(sprites.len(), 13);
    assert_eq!(load_state.pending_count(), 13);
    assert!(!load_state.finished_loading());
    for part in Part::all() {
        let sprite = sprites[vincubus.entity(part).index];
        assert!(load_state.is_pending(sprite.image));
    }
    // the character shows its initial pattern while its images still load
    assert_eq!(visible(&vincubus, &sprites, Group::Head), vec![Part::HeadNeutral]);
    load_state.poll(&images().to_vec());
    assert!(load_state.finished_loading());
}
