use i_am_legend::planner::{
    eval_next_ac, get_dir, resume_next_ac, Awaiting, Forecast, Goal, Pending, Plan, Query, Reply,
    Situation,
};
use i_am_legend::types::{Action, Content, DiscoverInfo, Direction, Error, RobertKnowledge, RobertStatus};

fn plain_map(n: usize) -> Vec<Vec<Option<Content>>> {
    vec![vec![Some(Content::Nothing); n]; n]
}

fn sit(pos: (usize, usize), energy: usize) -> Situation {
    Situation { pos, energy, switch_tool: false }
}

#[test]
fn low_energy_rests() {
    let st = RobertStatus::new();
    let mut k = RobertKnowledge::new();
    let p = eval_next_ac(&st, &mut k, &plain_map(3), &sit((1, 1), 100));
    assert_eq!(p, Plan::Decided(Action::REST));
}

#[test]
fn shelter_ends_escape() {
    let mut st = RobertStatus::new();
    st.previous_action = Action::ESCAPE(Some(Direction::Up), (0, 0), (Direction::Up, None));
    st.thirst = 10;
    let mut map = plain_map(3);
    map[1][1] = Some(Content::Building);
    let mut k = RobertKnowledge::new();
    let p = eval_next_ac(&st, &mut k, &map, &sit((1, 1), 900));
    assert_eq!(p, Plan::Decided(Action::REST));
}

#[test]
fn escape_looks_for_shelter_first() {
    let mut st = RobertStatus::new();
    st.previous_action = Action::ESCAPE(None, (0, 1), (Direction::Up, None));
    st.thirst = 10;
    let mut k = RobertKnowledge::new();
    let p = eval_next_ac(&st, &mut k, &plain_map(3), &sit((1, 1), 50));
    let pending = Pending::Shelter { fresh: true, origin: (0, 1), side: (Direction::Up, None) };
    assert_eq!(p, Plan::Ask(Query::FindClosest(Content::Building), pending));
    // no shelter known: flee away from the zombie's side
    let p = resume_next_ac(&st, &mut k, &plain_map(3), &sit((1, 1), 50), pending, Reply::Closest(None));
    assert_eq!(p, Plan::Decided(Action::ESCAPE(Some(Direction::Left), (0, 1), (Direction::Up, None))));
    // a shelter known: a fresh path is asked for
    let p = resume_next_ac(&st, &mut k, &plain_map(3), &sit((1, 1), 50), pending, Reply::Closest(Some((2, 2))));
    let goal = Goal::Escape { shelter: (2, 2), origin: (0, 1), side: (Direction::Up, None) };
    assert_eq!(
        p,
        Plan::Ask(
            Query::ShortestPath { escape: true, from: (1, 1), to: (2, 2) },
            Pending::Route { goal, awaiting: Awaiting::Path }
        )
    );
    // the path comes back; its first step is asked for
    let p = resume_next_ac(
        &st,
        &mut k,
        &plain_map(3),
        &sit((1, 1), 50),
        Pending::Route { goal, awaiting: Awaiting::Path },
        Reply::Path(Some(vec![(1, 1), (2, 1), (2, 2)])),
    );
    assert_eq!(k.path_index, 1);
    assert_eq!(
        p,
        Plan::Ask(
            Query::StepDirection { from: (1, 1), to: (2, 1) },
            Pending::Route { goal, awaiting: Awaiting::Step }
        )
    );
    let p = resume_next_ac(
        &st,
        &mut k,
        &plain_map(3),
        &sit((1, 1), 50),
        Pending::Route { goal, awaiting: Awaiting::Step },
        Reply::Direction(Some(Direction::Down)),
    );
    assert_eq!(k.path_index, 2);
    assert_eq!(p, Plan::Decided(Action::ESCAPE(Some(Direction::Down), (0, 1), (Direction::Up, None))));
}

#[test]
fn thirsty_robert_looks_for_water() {
    let mut st = RobertStatus::new();
    st.thirst = 60;
    st.hunger = 100;
    let mut k = RobertKnowledge::new();
    let p = eval_next_ac(&st, &mut k, &plain_map(3), &sit((1, 1), 300));
    assert_eq!(
        p,
        Plan::Ask(Query::FindClosest(Content::Water(0)), Pending::Supply { content: Content::Water(0) })
    );
    // nothing known: the dog is sent for water with all the energy
    let p = resume_next_ac(
        &st,
        &mut k,
        &plain_map(3),
        &sit((1, 1), 300),
        Pending::Supply { content: Content::Water(0) },
        Reply::Closest(None),
    );
    assert_eq!(
        p,
        Plan::Decided(Action::DISCOVER(DiscoverInfo { content: Some(Content::Water(0)), energy: 300 }))
    );
}

#[test]
fn hungry_robert_looks_for_a_market() {
    let mut st = RobertStatus::new();
    st.thirst = 100;
    st.hunger = 60;
    let mut k = RobertKnowledge::new();
    let p = eval_next_ac(&st, &mut k, &plain_map(3), &sit((1, 1), 300));
    assert_eq!(
        p,
        Plan::Ask(Query::FindClosest(Content::Market(0)), Pending::Supply { content: Content::Market(0) })
    );
}

#[test]
fn dog_is_sent_for_the_market_not_found() {
    let mut st = RobertStatus::new();
    st.hunger = 60;
    let mut k = RobertKnowledge::new();
    let p = resume_next_ac(
        &st,
        &mut k,
        &plain_map(3),
        &sit((1, 1), 250),
        Pending::Supply { content: Content::Market(0) },
        Reply::Closest(None),
    );
    assert_eq!(
        p,
        Plan::Decided(Action::DISCOVER(DiscoverInfo { content: Some(Content::Market(0)), energy: 250 }))
    );
}

#[test]
fn bad_forecast_sends_the_dog_on_any_map() {
    let st = RobertStatus::new();
    let mut k = RobertKnowledge::new();
    let map = vec![vec![Some(Content::Nothing)], vec![Some(Content::Nothing)]];
    let p = resume_next_ac(&st, &mut k, &map, &sit((1, 0), 300), Pending::Weather, Reply::Weather(Forecast::Bad));
    assert_eq!(p, Plan::Decided(Action::DISCOVER(DiscoverInfo { content: None, energy: 75 })));
}

#[test]
fn target_next_to_robert_is_collected() {
    let mut st = RobertStatus::new();
    st.thirst = 60;
    let mut k = RobertKnowledge::new();
    let pending = Pending::Supply { content: Content::Water(0) };
    let p = resume_next_ac(&st, &mut k, &plain_map(3), &sit((1, 1), 300), pending, Reply::Closest(Some((1, 2))));
    let goal = Goal::Reach { target: (1, 2), content: Content::Water(0) };
    assert_eq!(
        p,
        Plan::Ask(
            Query::ShortestPath { escape: false, from: (1, 1), to: (1, 2) },
            Pending::Route { goal, awaiting: Awaiting::Path }
        )
    );
    let p = resume_next_ac(
        &st,
        &mut k,
        &plain_map(3),
        &sit((1, 1), 300),
        Pending::Route { goal, awaiting: Awaiting::Path },
        Reply::Path(Some(vec![(1, 1), (1, 2)])),
    );
    let p2 = resume_next_ac(
        &st,
        &mut k,
        &plain_map(3),
        &sit((1, 1), 300),
        match p {
            Plan::Ask(_, pending) => pending,
            _ => panic!("expected a query"),
        },
        Reply::Direction(Some(Direction::Right)),
    );
    assert_eq!(p2, Plan::Decided(Action::COLLECT(Direction::Right, Content::Water(0))));
    assert_eq!(k.path_index, 1);
}

#[test]
fn walking_to_target_goes_on_along_the_path() {
    let mut st = RobertStatus::new();
    st.thirst = 60;
    st.previous_action = Action::WalkToTarget(Direction::Down, (3, 1), None);
    let mut k = RobertKnowledge::new();
    k.path = Some(vec![(0, 1), (1, 1), (2, 1), (3, 1)]);
    k.path_index = 2;
    let p = eval_next_ac(&st, &mut k, &plain_map(4), &sit((1, 1), 300));
    let goal = Goal::Reach { target: (3, 1), content: Content::Water(1) };
    assert_eq!(
        p,
        Plan::Ask(
            Query::StepDirection { from: (1, 1), to: (2, 1) },
            Pending::Route { goal, awaiting: Awaiting::Step }
        )
    );
    let p = resume_next_ac(
        &st,
        &mut k,
        &plain_map(4),
        &sit((1, 1), 300),
        Pending::Route { goal, awaiting: Awaiting::Step },
        Reply::Direction(Some(Direction::Down)),
    );
    assert_eq!(p, Plan::Decided(Action::WalkToTarget(Direction::Down, (3, 1), Some(Content::Water(1)))));
    assert_eq!(k.path_index, 3);
    // the index stays on the last step
    let _ = resume_next_ac(
        &st,
        &mut k,
        &plain_map(4),
        &sit((2, 1), 300),
        Pending::Route { goal, awaiting: Awaiting::Step },
        Reply::Direction(Some(Direction::Down)),
    );
    assert_eq!(k.path_index, 3);
}

#[test]
fn empty_path_with_index_one_is_exhausted() {
    let mut st = RobertStatus::new();
    st.thirst = 60;
    st.previous_action = Action::WalkToTarget(Direction::Down, (3, 1), Some(Content::Water(4)));
    let mut k = RobertKnowledge::new();
    let p = eval_next_ac(&st, &mut k, &plain_map(4), &sit((1, 1), 300));
    assert_eq!(p, Plan::PathExhausted);
}

#[test]
fn no_path_means_up_and_a_new_path_next_time() {
    let st = RobertStatus::new();
    let mut k = RobertKnowledge::new();
    let goal = Goal::Reach { target: (0, 0), content: Content::Market(0) };
    let p = resume_next_ac(
        &st,
        &mut k,
        &plain_map(3),
        &sit((2, 2), 300),
        Pending::Route { goal, awaiting: Awaiting::Path },
        Reply::Path(None),
    );
    assert_eq!(p, Plan::Decided(Action::WalkToTarget(Direction::Up, (0, 0), Some(Content::Market(0)))));
    assert_eq!(k.path_index, 0);
    assert!(k.path.is_none());
    // with index zero the next route asks for a path again
    let p = get_dir(&mut k, &sit((2, 2), 300), goal, false);
    assert_eq!(
        p,
        Plan::Ask(
            Query::ShortestPath { escape: false, from: (2, 2), to: (0, 0) },
            Pending::Route { goal, awaiting: Awaiting::Path }
        )
    );
}

#[test]
fn compass_is_asked_when_switched() {
    let mut k = RobertKnowledge::new();
    let goal = Goal::Escape { shelter: (0, 0), origin: (2, 1), side: (Direction::Down, None) };
    let s = Situation { pos: (1, 1), energy: 10, switch_tool: true };
    let p = get_dir(&mut k, &s, goal, true);
    assert_eq!(
        p,
        Plan::Ask(
            Query::CompassMove { escape: true, from: (1, 1), to: (0, 0) },
            Pending::Route { goal, awaiting: Awaiting::Move }
        )
    );
    let st = RobertStatus::new();
    let p = resume_next_ac(
        &st,
        &mut k,
        &plain_map(3),
        &s,
        Pending::Route { goal, awaiting: Awaiting::Move },
        Reply::Direction(None),
    );
    assert_eq!(p, Plan::Decided(Action::ESCAPE(Some(Direction::Up), (2, 1), (Direction::Down, None))));
}

#[test]
fn middle_energy_asks_the_weather() {
    let st = RobertStatus::new();
    let mut k = RobertKnowledge::new();
    let p = eval_next_ac(&st, &mut k, &plain_map(3), &sit((1, 1), 400));
    assert_eq!(p, Plan::Ask(Query::PredictWeather, Pending::Weather));
    let p = resume_next_ac(&st, &mut k, &plain_map(3), &sit((1, 1), 400), Pending::Weather, Reply::Weather(Forecast::Bad));
    assert_eq!(p, Plan::Decided(Action::DISCOVER(DiscoverInfo { content: None, energy: 100 })));
}

#[test]
fn high_energy_explores_towards_unknown_zone() {
    let st = RobertStatus::new();
    let mut k = RobertKnowledge::new();
    let mut map = plain_map(4);
    map[3][3] = None;
    map[3][2] = None;
    // row 3 holds two unknown tiles; (3, 2) is the first tile of highest score
    let p = eval_next_ac(&st, &mut k, &map, &sit((1, 1), 500));
    assert_eq!(p, Plan::Decided(Action::WalkDiscover((Direction::Right, Direction::Down), 0)));
    let p = resume_next_ac(&st, &mut k, &map, &sit((1, 1), 300), Pending::Weather, Reply::Weather(Forecast::Sunny));
    assert_eq!(p, Plan::Decided(Action::WalkDiscover((Direction::Right, Direction::Down), 0)));
}

#[test]
fn exploration_after_walking_keeps_step_count() {
    let mut st = RobertStatus::new();
    st.previous_action = Action::WalkDiscover((Direction::Up, Direction::Up), 2);
    let mut k = RobertKnowledge::new();
    let mut map = plain_map(3);
    map[0][0] = None;
    let p = eval_next_ac(&st, &mut k, &map, &sit((2, 2), 500));
    assert_eq!(p, Plan::Decided(Action::WalkDiscover((Direction::Left, Direction::Up), 2)));
}

#[test]
fn stuck_robert_draws_free_directions() {
    let mut st = RobertStatus::new();
    st.previous_action = Action::WalkDiscover((Direction::Up, Direction::Up), 3);
    let mut k = RobertKnowledge::new();
    // Up looks at (0, 1), Down at (2, 1), Right at (1, 2), Left at (1, 0)
    k.zombies.insert((0, 1));
    k.zombies.insert((2, 1));
    k.zombies.insert((1, 2));
    for _ in 0..50 {
        let p = eval_next_ac(&st, &mut k, &plain_map(3), &sit((1, 1), 500));
        assert_eq!(p, Plan::Decided(Action::WalkDiscover((Direction::Left, Direction::Left), 3)));
    }
    k.zombies.insert((1, 0));
    let p = eval_next_ac(&st, &mut k, &plain_map(3), &sit((1, 1), 500));
    assert_eq!(p, Plan::Surrounded);
}

#[test]
fn walking_to_target_without_need_is_a_logic_error() {
    let mut st = RobertStatus::new();
    st.previous_action = Action::WalkToTarget(Direction::Up, (0, 0), None);
    let mut k = RobertKnowledge::new();
    let p = eval_next_ac(&st, &mut k, &plain_map(3), &sit((1, 1), 500));
    assert_eq!(p, Plan::Failed(Error::LogicError));
}
