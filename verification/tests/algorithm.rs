use iced_quicksilver_renderer::Status;

#[test]
fn it_works() {
    assert_eq!(2 + 2, 4);
}

#[test]
#[allow(non_snake_case, non_upper_case_globals)]
fn sim() {
    const N: f32 = 1000.0;
    const iter: usize = 50;

    let mut I = 1.0;
    let mut S = N - I;
    let mut R = 0.0;

    //avg contact per person
    let beta = 1.0;
    //the avg # of recovery per day
    let recovery = 5.0;
    let gamma = 1.0 / recovery;
    println!("time, num, group");
    let mut res = vec![];
    for _ in 0..iter {
        let s0 = S as f32;
        let i0 = I as f32;
        let r0 = R as f32;
        S += -beta * (I / N) as f32 * s0;
        I += beta * (I / N) as f32 * s0 - gamma * i0;
        R += gamma * i0;
        let _ = r0;
        res.push((S, I, R));
    }
    for (i, (s, _, _)) in res.iter().enumerate() {
        println!("{}, {}, S", i, s)
    }
    for (i, (_, inf, _)) in res.iter().enumerate() {
        println!("{}, {}, I", i, inf)
    }
    for (i, (_, _, r)) in res.iter().enumerate() {
        println!("{}, {}, R", i, r)
    }
}

#[test]
fn the_four_states_are_distinct() {
    let states = [Status::Susceptible, Status::Exposed, Status::Infectious, Status::Removed];
    for (i, a) in states.iter().enumerate() {
        for (j, b) in states.iter().enumerate() {
            assert_eq!(a == b, i == j);
        }
    }
}
