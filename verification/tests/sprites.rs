use rust_boy::gb_asm::Instr;
use rust_boy::gb_std::graphics::sprites::{
    clear_objects_screen, initialize_objects_screen, Sprite,
};
use rust_boy::rust_boy::{Animation, AnimationType, SpriteId, SpriteManager};

fn lines(code: &Vec<Instr>) -> Vec<String> {
    code.iter().map(|i| i.to_string()).collect()
}

#[test]
fn test_add_sprite() {
    let mut sm = SpriteManager::new();

    let paddle = sm.add("Paddle", 16, 128, 0, 1).unwrap();
    let ball = sm.add("Ball", 32, 100, 0, 1).unwrap();

    assert_eq!(sm.get(paddle).unwrap().x, 16);
    assert_eq!(sm.get(paddle).unwrap().y, 128);
    assert_eq!(sm.get(ball).unwrap().x, 32);
    assert_eq!(sm.get(ball).unwrap().y, 100);
}

#[test]
fn test_oam_indices() {
    let mut sm = SpriteManager::new();

    let paddle = sm.add("Paddle", 16, 128, 0, 1).unwrap();
    let ball = sm.add("Ball", 32, 100, 0, 1).unwrap();

    assert_eq!(sm.get(paddle).unwrap().oam_index, 0);
    assert_eq!(sm.get(ball).unwrap().oam_index, 1);
}

#[test]
fn tile_indices_follow_the_tile_counts() {
    let mut sm = SpriteManager::new();
    let a = sm.add("A", 0, 0, 0, 3).unwrap();
    let b = sm.add("B", 0, 0, 0, 0).unwrap();
    let c = sm.add("C", 0, 0, 0, 2).unwrap();
    assert_eq!(sm.get(a).unwrap().tile_index, 0);
    assert_eq!(sm.get(b).unwrap().tile_index, 3);
    assert_eq!(sm.get(c).unwrap().tile_index, 3);
    assert!(sm.can_add(250));
    assert!(!sm.can_add(251));
    assert!(sm.add("D", 0, 0, 0, 251).is_none());
    assert!(sm.get(SpriteId(3)).is_none());
}

#[test]
fn the_forty_first_sprite_is_refused() {
    let mut sm = SpriteManager::new();
    assert!(sm.is_empty());
    for i in 0..40 {
        assert_eq!(sm.add("S", 1, 2, 3, 0), Some(SpriteId(i)));
    }
    assert!(!sm.is_empty());
    assert_eq!(sm.add("S", 1, 2, 3, 0), None);
    assert!(!sm.can_add(0));
}

#[test]
fn moves_address_the_sprites_entry() {
    let mut sm = SpriteManager::new();
    let _first = sm.add("Paddle", 16, 128, 0, 1).unwrap();
    let ball = sm.add("Ball", 32, 100, 0, 1).unwrap();
    assert_eq!(
        lines(&sm.move_left_limit(ball, 1, 15)),
        vec![
            "ld a, [_OAMRAM+5]",
            "sub a, 1",
            "cp 15",
            "jp z, Sprite1LeftLimitEnd",
            "ld [_OAMRAM+5], a",
            "Sprite1LeftLimitEnd:",
        ]
    );
    assert_eq!(
        lines(&sm.move_right_limit(ball, 2, 105)),
        vec![
            "ld a, [_OAMRAM+5]",
            "add a, 2",
            "cp 105",
            "jp z, Sprite1RightLimitEnd",
            "ld [_OAMRAM+5], a",
            "Sprite1RightLimitEnd:",
        ]
    );
    assert_eq!(lines(&sm.move_up_limit(ball, 1, 0))[0], "ld a, [_OAMRAM+4]");
    assert_eq!(lines(&sm.move_up_limit(ball, 1, 0))[1], "sub a, 1");
    assert_eq!(lines(&sm.move_down_limit(ball, 1, 0))[1], "add a, 1");
    assert_eq!(lines(&sm.move_down_limit(ball, 1, 0))[5], "Sprite1DownLimitEnd:");
    assert_eq!(
        lines(&sm.move_x_var(ball, "wBallMomentumX")),
        vec![
            "ld a, [wBallMomentumX]",
            "ld b, a",
            "ld a, [_OAMRAM+5]",
            "add a, b",
            "ld [_OAMRAM+5], a",
        ]
    );
    assert_eq!(lines(&sm.move_y_var(ball, "wBallMomentumY"))[2], "ld a, [_OAMRAM+4]");
    assert_eq!(lines(&sm.get_x(ball)), vec!["ld a, [_OAMRAM+5]"]);
    assert_eq!(lines(&sm.get_y(ball)), vec!["ld a, [_OAMRAM+4]"]);
    assert!(sm.get_x(SpriteId(7)).is_empty());
    assert!(sm.move_left_limit(SpriteId(7), 1, 1).is_empty());
}

#[test]
fn the_pivot_takes_the_screen_offsets_off() {
    let mut sm = SpriteManager::new();
    let ball = sm.add("Ball", 32, 100, 0, 1).unwrap();
    assert_eq!(
        lines(&sm.get_pivot(ball, 0, 1)),
        vec![
            "ld a, [_OAMRAM+0]",
            "sub a, 17",
            "ld c, a",
            "ld a, [_OAMRAM+1]",
            "sub a, 8",
            "ld b, a",
        ]
    );
    let clamped = lines(&sm.get_pivot(ball, -9, 240));
    assert_eq!(clamped[1], "sub a, 0");
    assert_eq!(clamped[4], "sub a, 0");
    let edge = lines(&sm.get_pivot(ball, -8, 239));
    assert_eq!(edge[1], "sub a, 255");
    assert_eq!(edge[4], "sub a, 0");
    assert!(sm.get_pivot(SpriteId(1), 0, 0).is_empty());
}

#[test]
fn animations_have_switches_and_routines() {
    let mut sm = SpriteManager::new();
    let a = sm.add("A", 8, 16, 0, 4).unwrap();
    let b = sm.add("B", 8, 16, 0, 8).unwrap();
    assert!(!sm.has_animations());
    sm.add_animation(b, "Spin", 1, 3, AnimationType::Loop);
    sm.add_animation(a, "Walk", 0, 2, AnimationType::PingPong);
    sm.add_animation(SpriteId(9), "Ghost", 0, 2, AnimationType::Once);
    assert!(sm.has_animations());
    assert_eq!(
        sm.get_animation_variables(),
        vec![
            ("wAnim_Walk_Active".to_string(), 1),
            ("wAnim_Spin_Active".to_string(), 1),
        ]
    );
    let functions = sm.generate_animation_functions();
    assert_eq!(functions.len(), 2);
    assert_eq!(functions[0].0, "Anim_Walk");
    assert_eq!(functions[1].0, "Anim_Spin");
    assert_eq!(
        lines(&functions[1].1),
        vec![
            "Anim_Spin:",
            "ld a, [_OAMRAM+6]",
            "inc a",
            "cp 5",
            "jr c, .reset_Spin",
            "cp 8",
            "jr c, .store_Spin",
            ".reset_Spin:",
            "ld a, 5",
            ".store_Spin:",
            "ld [_OAMRAM+6], a",
            "ret",
        ]
    );
    let calls = lines(&sm.generate_animation_calls(8));
    assert_eq!(
        calls,
        vec![
            "ld a, [wFrameCounter]",
            "inc a",
            "ld [wFrameCounter], a",
            "cp 8",
            "jr c, AnimEnd",
            "ld a, 0",
            "ld [wFrameCounter], a",
            "ld a, [wAnim_Walk_Active]",
            "cp 0",
            "jr z, .skip_Walk",
            "call Anim_Walk",
            ".skip_Walk:",
            "ld a, [wAnim_Spin_Active]",
            "cp 0",
            "jr z, .skip_Spin",
            "call Anim_Spin",
            ".skip_Spin:",
            "AnimEnd:",
        ]
    );
    assert_eq!(
        lines(&sm.enable_animation("Spin")),
        vec!["ld a, 1", "ld [wAnim_Spin_Active], a"]
    );
    assert_eq!(
        lines(&sm.disable_animation("Spin")),
        vec!["ld a, 0", "ld [wAnim_Spin_Active], a"]
    );
    assert_eq!(
        lines(&sm.toggle_animation("Spin")),
        vec!["ld a, [wAnim_Spin_Active]", "xor a, 1", "ld [wAnim_Spin_Active], a"]
    );
}

#[test]
fn init_code_clears_and_fills_object_memory() {
    let mut sm = SpriteManager::new();
    sm.add("Paddle", 16, 128, 0, 1).unwrap();
    sm.add("Ball", 247, 239, 7, 1).unwrap();
    assert_eq!(
        lines(&sm.generate_init_code()),
        vec![
            "ld a, 0",
            "ld b, 160",
            "ld hl, _OAMRAM",
            "ClearOam:",
            "ld [hli], a",
            "dec b",
            "jp nz, ClearOam",
            "ld hl, _OAMRAM",
            "ld a, 144",
            "ld [hli], a",
            "ld a, 24",
            "ld [hli], a",
            "ld a, 0",
            "ld [hli], a",
            "ld a, 0",
            "ld [hli], a",
            "ld a, 255",
            "ld [hli], a",
            "ld a, 255",
            "ld [hli], a",
            "ld a, 1",
            "ld [hli], a",
            "ld a, 7",
            "ld [hli], a",
        ]
    );
}

#[test]
fn plain_sprites_draw_and_move() {
    let mut manager = rust_boy::gb_std::graphics::sprites::SpriteManager::new();
    assert!(manager.add_sprite(16, 128, 0, 0));
    assert!(manager.add_sprite(32, 100, 1, 0));
    assert_eq!(manager.get_sprite(1).unwrap().x, 32);
    assert!(manager.get_sprite(2).is_none());
    manager.get_sprite_mut(1).unwrap().x = 40;
    assert_eq!(manager.get_sprite(1).unwrap().x, 40);
    let drawn = lines(&manager.draw());
    assert_eq!(drawn.len(), 17);
    assert_eq!(drawn[0], "ld hl, _OAMRAM");
    assert_eq!(drawn[1], "ld a, 144");
    assert_eq!(drawn[3], "ld a, 24");
    assert_eq!(drawn[9], "ld a, 116");
    assert_eq!(drawn[11], "ld a, 48");
    assert_eq!(drawn[13], "ld a, 1");
    for _ in 2..40 {
        assert!(manager.add_sprite(0, 0, 0, 0));
    }
    assert!(!manager.add_sprite(0, 0, 0, 0));

    let mut sprite = Sprite::new(3, 1, 2, 4, 5);
    assert_eq!(
        lines(&sprite.move_left(2)),
        vec!["Left:", "ld a, [_OAMRAM+13]", "add a, 2", "ld [_OAMRAM+13], a", "LeftEnd:"]
    );
    assert_eq!(lines(&sprite.move_right(2))[2], "sub a, 2");
    assert_eq!(lines(&sprite.move_up(2))[1], "ld a, [_OAMRAM+14]");
    assert_eq!(lines(&sprite.move_up(2))[2], "sub a, 2");
    assert_eq!(lines(&sprite.move_down(2))[2], "add a, 2");
    assert_eq!(
        lines(&sprite.move_left_limit(1, 15)),
        vec![
            "LeftLimit:",
            "ld a, [_OAMRAM+13]",
            "add a, 1",
            "cp 15",
            "jp z, LeftLimitEnd",
            "ld [_OAMRAM+13], a",
            "LeftLimitEnd:",
        ]
    );
    assert_eq!(lines(&sprite.move_right_limit(1, 15))[2], "sub a, 1");
    assert_eq!(lines(&sprite.move_up_limit(1, 15))[0], "UpLimit:");
    assert_eq!(lines(&sprite.move_down_limit(1, 15))[4], "jp z, DownLimitEnd");
    assert_eq!(
        lines(&sprite.get_pivot(0, 1)),
        vec![
            "ld a, [_OAMRAM+12]",
            "sub a, 17",
            "ld c, a",
            "ld a, [_OAMRAM+13]",
            "sub a, 8",
            "ld b, a",
        ]
    );
    assert_eq!(
        lines(&clear_objects_screen()),
        vec!["ClearOam:", "ld [hli], a", "dec b", "jp nz, ClearOam"]
    );
    assert_eq!(
        lines(&initialize_objects_screen()),
        vec!["ld a, 0", "ld b, 160", "ld hl, _OAMRAM"]
    );
}

#[test]
fn an_animation_steps_by_its_frame_step() {
    let animation = Animation {
        name: "Walk".to_string(),
        oam_index: 2,
        base_tile: 10,
        start_frame: 1,
        end_frame: 3,
        anim_type: AnimationType::Loop,
        frame_step: 2,
    };
    assert!(animation.check_fits());
    assert_eq!(
        lines(&animation.generate_loop_func()),
        vec![
            "ld a, [_OAMRAM+10]",
            "add a, 2",
            "cp 12",
            "jr c, .reset_Walk",
            "cp 18",
            "jr c, .store_Walk",
            ".reset_Walk:",
            "ld a, 12",
            ".store_Walk:",
            "ld [_OAMRAM+10], a",
        ]
    );
    let too_far = Animation {
        name: "Far".to_string(),
        oam_index: 2,
        base_tile: 200,
        start_frame: 0,
        end_frame: 27,
        anim_type: AnimationType::Once,
        frame_step: 2,
    };
    assert!(!too_far.check_fits());
    let last = Animation {
        name: "Last".to_string(),
        oam_index: 39,
        base_tile: 250,
        start_frame: 0,
        end_frame: 4,
        anim_type: AnimationType::PingPong,
        frame_step: 1,
    };
    assert!(last.check_fits());
    let outside = Animation {
        name: "Outside".to_string(),
        oam_index: 40,
        base_tile: 0,
        start_frame: 0,
        end_frame: 0,
        anim_type: AnimationType::Loop,
        frame_step: 1,
    };
    assert!(!outside.check_fits());
}
