use kclass::assign::assign;
use kclass::components::{Mean, Sample};
use kclass::random::RandomSource;
use kclass::resources::{Domain, IdlePolicy};
use kclass::update::{cluster_totals, decide, floor_average, park, reseed, settle, update, ClusterTotal, MeanAction};

fn box_of_ten() -> Domain {
    Domain::new(20, 20)
}

fn policy() -> IdlePolicy {
    IdlePolicy::new(50, 960, 540)
}

#[test]
fn floor_average_rounds_down() {
    assert_eq!(floor_average(-10, 2), -5);
    assert_eq!(floor_average(10, 2), 5);
    assert_eq!(floor_average(7, 2), 3);
    assert_eq!(floor_average(-7, 2), -4);
    assert_eq!(floor_average(-1, 3), -1);
    assert_eq!(floor_average(0, 9), 0);
    assert_eq!(floor_average(24, 4), 6);
}

#[test]
fn floor_average_at_the_limits() {
    assert_eq!(floor_average(i32::MIN as i128, 1), i32::MIN);
    assert_eq!(floor_average(i32::MAX as i128, 1), i32::MAX);
    assert_eq!(floor_average(3 * (i32::MIN as i128), 3), i32::MIN);
    assert_eq!(floor_average(3 * (i32::MAX as i128), 3), i32::MAX);
    assert_eq!(floor_average(3 * (i32::MAX as i128) - 1, 3), i32::MAX - 1);
    assert_eq!(floor_average(3 * (i32::MIN as i128) + 1, 3), i32::MIN);
}

#[test]
fn totals_count_and_sum_each_cluster() {
    let samples = vec![Sample::new(-6, 1), Sample::new(-4, 2), Sample::new(4, 3), Sample::new(6, 4), Sample::new(1, 1)];
    let totals = cluster_totals(&samples, &vec![0, 0, 2, 2, 2], 3);
    assert_eq!(totals.len(), 3);
    assert_eq!(totals[0], ClusterTotal { count: 2, sum_x: -10, sum_y: 3 });
    assert_eq!(totals[1], ClusterTotal { count: 0, sum_x: 0, sum_y: 0 });
    assert_eq!(totals[2], ClusterTotal { count: 3, sum_x: 11, sum_y: 8 });
}

#[test]
fn totals_of_nothing_are_zero() {
    let totals = cluster_totals(&Vec::new(), &Vec::new(), 2);
    assert_eq!(totals, vec![ClusterTotal { count: 0, sum_x: 0, sum_y: 0 }; 2]);
    assert_eq!(cluster_totals(&Vec::new(), &Vec::new(), 0), Vec::new());
}

#[test]
fn action_depends_on_size_then_on_idle_count() {
    let p = policy();
    assert_eq!(decide(&Mean::new(0, 0, 0), 1, &p), MeanAction::Settle);
    assert_eq!(decide(&Mean::new(0, 0, 50), 3, &p), MeanAction::Settle);
    assert_eq!(decide(&Mean::new(0, 0, 0), 0, &p), MeanAction::Reseed);
    assert_eq!(decide(&Mean::new(0, 0, 49), 0, &p), MeanAction::Reseed);
    assert_eq!(decide(&Mean::new(0, 0, 50), 0, &p), MeanAction::Park);
    assert_eq!(decide(&Mean::new(0, 0, 51), 0, &p), MeanAction::Park);
    assert_eq!(decide(&Mean::new(0, 0, 0), 0, &IdlePolicy::new(0, 1, 1)), MeanAction::Park);
}

#[test]
fn settle_reseed_and_park_build_the_next_mean() {
    assert_eq!(settle(&ClusterTotal { count: 2, sum_x: -10, sum_y: 1 }), Mean::new(-5, 0, 0));
    assert_eq!(settle(&ClusterTotal { count: 4, sum_x: 24, sum_y: 0 }), Mean::new(6, 0, 0));
    assert_eq!(reseed(&Mean::new(1, 2, 49), 7, -8), Mean::new(7, -8, 50));
    assert_eq!(reseed(&Mean::new(1, 2, 0), 0, 0), Mean::new(0, 0, 1));
    assert_eq!(park(&Mean::new(1, 2, 50), &policy()), Mean::new(960, 540, 50));
}

#[test]
fn means_move_to_the_averages_of_their_samples() {
    let samples = vec![Sample::new(-6, 0), Sample::new(-4, 0), Sample::new(4, 0), Sample::new(6, 0)];
    let mut means = vec![Mean::new(-5, 0, 0), Mean::new(5, 0, 0)];
    let assignment = assign(&samples, &means);
    assert_eq!(assignment, vec![0, 0, 1, 1]);
    let mut rng = RandomSource::from_seed(1);
    update(&samples, &mut means, &assignment, &policy(), &box_of_ten(), &mut rng);
    assert_eq!(means, vec![Mean::new(-5, 0, 0), Mean::new(5, 0, 0)]);
}

#[test]
fn empty_cluster_is_reseeded_inside_the_box() {
    let samples = vec![Sample::new(6, 0); 4];
    let domain = box_of_ten();
    for seed in 0..200 {
        let mut means = vec![Mean::new(-5, 0, 0), Mean::new(5, 0, 0)];
        let assignment = assign(&samples, &means);
        let mut rng = RandomSource::from_seed(seed);
        update(&samples, &mut means, &assignment, &policy(), &domain, &mut rng);
        assert_eq!(means.len(), 2);
        assert_eq!(means[0].last_tick, 1);
        assert!(domain.holds(means[0].x, means[0].y));
        assert_eq!(means[1], Mean::new(6, 0, 0));
    }
}

#[test]
fn settling_clears_the_idle_count() {
    let samples = vec![Sample::new(1, 1), Sample::new(2, 4)];
    let mut means = vec![Mean::new(0, 0, 17)];
    let mut rng = RandomSource::from_seed(3);
    update(&samples, &mut means, &vec![0, 0], &policy(), &box_of_ten(), &mut rng);
    assert_eq!(means, vec![Mean::new(1, 2, 0)]);
}

#[test]
fn idle_count_grows_by_one_until_the_mean_is_parked() {
    let samples = vec![Sample::new(6, 0); 3];
    let domain = box_of_ten();
    let p = IdlePolicy::new(5, 960, 540);
    let mut means = vec![Mean::new(-5, 0, 0), Mean::new(5, 0, 0)];
    let mut rng = RandomSource::from_seed(11);
    let everything_to_the_second = vec![1, 1, 1];
    for tick in 1..=5 {
        update(&samples, &mut means, &everything_to_the_second, &p, &domain, &mut rng);
        assert_eq!(means[0].last_tick, tick);
        assert!(domain.holds(means[0].x, means[0].y));
        assert_eq!(means[1], Mean::new(6, 0, 0));
    }
    for _ in 0..4 {
        update(&samples, &mut means, &everything_to_the_second, &p, &domain, &mut rng);
        assert_eq!(means[0], Mean::new(960, 540, 5));
        assert_eq!(means.len(), 2);
    }
    update(&samples, &mut means, &vec![0, 1, 1], &p, &domain, &mut rng);
    assert_eq!(means[0], Mean::new(6, 0, 0));
    update(&samples, &mut means, &everything_to_the_second, &p, &domain, &mut rng);
    assert_eq!(means[0].last_tick, 1);
    assert!(domain.holds(means[0].x, means[0].y));
}

#[test]
fn zero_threshold_parks_at_once() {
    let mut means = vec![Mean::new(1, 1, 0), Mean::new(2, 2, 0)];
    let mut rng = RandomSource::from_seed(5);
    update(&vec![Sample::new(2, 3)], &mut means, &vec![1], &IdlePolicy::new(0, -7, 9), &box_of_ten(), &mut rng);
    assert_eq!(means, vec![Mean::new(-7, 9, 0), Mean::new(2, 3, 0)]);
}

#[test]
fn update_without_samples_reseeds_every_mean() {
    let domain = box_of_ten();
    let mut means = vec![Mean::new(1, 1, 0), Mean::new(2, 2, 4), Mean::new(3, 3, 50)];
    let mut rng = RandomSource::from_seed(8);
    update(&Vec::new(), &mut means, &Vec::new(), &policy(), &domain, &mut rng);
    assert_eq!(means[0].last_tick, 1);
    assert_eq!(means[1].last_tick, 5);
    assert!(domain.holds(means[0].x, means[0].y) && domain.holds(means[1].x, means[1].y));
    assert_eq!(means[2], Mean::new(960, 540, 50));
}

#[test]
fn averages_stay_inside_the_box_of_the_samples() {
    let domain = Domain::new(9, 5);
    let mut rng = RandomSource::from_seed(21);
    let samples = kclass::generate::generate_samples(&kclass::resources::SampleCount(500), &domain, &mut rng);
    let mut means = vec![Mean::new(-4, -2, 0), Mean::new(4, 2, 0), Mean::new(0, 0, 0)];
    for _ in 0..20 {
        let assignment = assign(&samples, &means);
        let totals = cluster_totals(&samples, &assignment, means.len());
        update(&samples, &mut means, &assignment, &policy(), &domain, &mut rng);
        for (c, total) in totals.iter().enumerate() {
            if total.count > 0 {
                assert!(domain.holds(means[c].x, means[c].y));
                let n = total.count as i128;
                assert!(n * (means[c].x as i128) <= total.sum_x && total.sum_x < n * (means[c].x as i128) + n);
                assert!(n * (means[c].y as i128) <= total.sum_y && total.sum_y < n * (means[c].y as i128) + n);
                assert_eq!(means[c].last_tick, 0);
            }
        }
    }
}
