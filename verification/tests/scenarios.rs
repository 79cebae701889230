use base_defense::classify::{Allegiance, ThreatTarget, UnitKind};
use base_defense::decide::{controlled_units, decide_turn, threatening_units, Command};
use base_defense::entity::Base;
use base_defense::parse::{parse_single_u16, tokenize};
use base_defense::turn::TurnParser;

fn feed_all(parser: &mut TurnParser, lines: &[&[u8]]) {
    for line in lines {
        assert_eq!(parser.feed_line(&line.to_vec()), Ok(()));
    }
}

#[test]
fn single_hero_gets_exactly_one_command() {
    let my_base = Base::from_setup(&tokenize(&b"5 5".to_vec())).unwrap();
    let enemy_base = my_base.other();
    let heroes_per_player = parse_single_u16(&tokenize(&b"3".to_vec())).unwrap();
    assert_eq!(heroes_per_player, 3);

    let mut parser = TurnParser::new();
    feed_all(
        &mut parser,
        &[b"100 50", b"100 50", b"1", b"7 1 10 10 0 0 100 0 0 0 0"],
    );
    assert!(parser.is_ready());

    let controlled = controlled_units(&parser.entities);
    assert_eq!(controlled.len(), 1);
    assert_eq!(controlled[0].id, 7);
    assert_eq!(controlled[0].kind, UnitKind::Hero(Allegiance::Mine));

    let mut my_base = my_base;
    my_base.update(parser.my_health, parser.my_mana);
    let mut enemy_base = enemy_base;
    enemy_base.update(parser.enemy_health, parser.enemy_mana);

    let commands = decide_turn(&parser.entities, &my_base, &enemy_base);
    assert_eq!(commands.len(), 1);
    assert_eq!(commands[0], Command::Wait);
    assert_eq!(commands[0].text(), "WAIT");
}

#[test]
fn opponent_hero_threatening_me_is_a_threat_not_controlled() {
    let mut parser = TurnParser::new();
    feed_all(
        &mut parser,
        &[b"100 50", b"100 50", b"1", b"9 2 3 3 0 0 50 0 0 0 1"],
    );
    assert!(parser.is_ready());
    assert_eq!(parser.entities.len(), 1);
    let unit = parser.entities[0];
    assert_eq!(unit.kind, UnitKind::Hero(Allegiance::Opponent));
    assert_eq!(unit.threat_for, ThreatTarget::Base(Allegiance::Mine));

    let controlled = controlled_units(&parser.entities);
    assert!(controlled.is_empty());
    let threats = threatening_units(&parser.entities);
    assert_eq!(threats.len(), 1);
    assert_eq!(threats[0].id, 9);
}

#[test]
fn zero_entities_means_zero_commands() {
    let mut parser = TurnParser::new();
    feed_all(&mut parser, &[b"100 50", b"100 50", b"0"]);
    assert!(parser.is_ready());
    assert!(parser.entities.is_empty());

    let my_base = Base { x: 5, y: 5, health: 100, mana: 50 };
    let enemy_base = Base { x: 1, y: 1, health: 100, mana: 50 };
    let commands = decide_turn(&parser.entities, &my_base, &enemy_base);
    assert!(commands.is_empty());
}

#[test]
fn commands_follow_snapshot_order_one_per_hero() {
    let mut parser = TurnParser::new();
    feed_all(
        &mut parser,
        &[
            b"100 50",
            b"100 50",
            b"4",
            b"3 1 1 1 0 0 100 0 0 0 0",
            b"4 0 9 9 0 0 10 1 1 1 1",
            b"5 1 2 2 0 0 100 0 0 0 0",
            b"6 2 8 8 0 0 100 0 0 0 0",
        ],
    );
    assert!(parser.is_ready());
    let controlled = controlled_units(&parser.entities);
    assert_eq!(controlled.len(), 2);
    assert_eq!(controlled[0].id, 3);
    assert_eq!(controlled[1].id, 5);

    let my_base = Base { x: 5, y: 5, health: 100, mana: 50 };
    let enemy_base = Base { x: 1, y: 1, health: 100, mana: 50 };
    let commands = decide_turn(&parser.entities, &my_base, &enemy_base);
    assert_eq!(commands, vec![Command::Wait, Command::Wait]);
}
