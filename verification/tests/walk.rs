use snake::{BodySection, Direction, Snake};

#[test]
fn it_returns_the_properties() {
    let snake = Snake::new(0, 0);

    assert_eq!(snake.size(), 0);
    assert_eq!(snake.head_position(), (0, 0));

    let tail_2: Vec<BodySection> = vec![BodySection::new(1, 2, Direction::Down)];

    let head_2 = BodySection::new(0, 0, Direction::Up);
    let snake_2 = Snake { head: head_2, tail: tail_2 };

    assert_eq!(snake_2.size(), 1);
}

#[test]
fn it_moves_snake_to_left() {
    let snake = Snake::new(10, 20);
    let snake_1 = snake.walk(Direction::Left);

    assert_eq!(snake_1.head_position(), (9, 20));

    let tail_2: Vec<BodySection> = vec![
        BodySection::new(20, 19, Direction::Up),
        BodySection::new(20, 18, Direction::Up),
    ];
    let snake_2 = Snake { head: BodySection::new(20, 20, Direction::Left), tail: tail_2 };
    let snake_2 = snake_2.walk(Direction::Left);

    assert_eq!(snake_2.head_position(), (19, 20));

    let first = snake_2.tail[0];
    let second = snake_2.tail[1];

    assert_eq!(first.position(), (20, 20));
    assert_eq!(second.position(), (20, 19));
}

#[test]
fn it_moves_snake_to_right() {
    let snake = Snake::new(10, 20);
    let snake_1 = snake.walk(Direction::Right);

    assert_eq!(snake_1.head_position(), (11, 20));

    let tail_2: Vec<BodySection> = vec![
        BodySection::new(20, 19, Direction::Up),
        BodySection::new(20, 18, Direction::Up),
    ];
    let snake_2 = Snake { head: BodySection::new(20, 20, Direction::Right), tail: tail_2 };
    let snake_2 = snake_2.walk(Direction::Right);

    assert_eq!(snake_2.head_position(), (21, 20));

    let first = snake_2.tail[0];
    let second = snake_2.tail[1];

    assert_eq!(first.position(), (20, 20));
    assert_eq!(second.position(), (20, 19));
}

#[test]
fn it_moves_to_up_and_down() {
    let snake = Snake::new(10, 20);
    let snake = snake.walk(Direction::Up);

    assert_eq!(snake.head_position(), (10, 21));

    let snake_2 = Snake::new(10, 20);
    let snake_2 = snake_2.walk(Direction::Down);

    assert_eq!(snake_2.head_position(), (10, 19));
}
