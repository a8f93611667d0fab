use tile_rpg::player::Player;

#[test]
fn player_moves_by_its_step() {
    let mut p = Player::new("player.png".to_string(), (100, 50), (64, 32));
    assert_eq!((p.x(), p.y(), p.width(), p.height()), (100, 50, 64, 32));
    p.move_to((1, -2));
    assert_eq!((p.x(), p.y()), (110, 30));
    assert_eq!(p.texture_path(), "player.png");
}
