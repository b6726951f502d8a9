use kclass::assign::{assign, nearest_mean, squared_distance};
use kclass::components::{Mean, Sample};

fn two_means() -> Vec<Mean> {
    vec![Mean::new(-5, 0, 0), Mean::new(5, 0, 0)]
}

#[test]
fn constructors_keep_their_arguments() {
    let s = Sample::new(3, -4);
    assert_eq!((s.x, s.y), (3, -4));
    let m = Mean::new(-1, 2, 7);
    assert_eq!((m.x, m.y, m.last_tick), (-1, 2, 7));
}

#[test]
fn squared_distance_is_exact() {
    assert_eq!(squared_distance(&Sample::new(0, 0), &Mean::new(3, 4, 0)), 25);
    assert_eq!(squared_distance(&Sample::new(-6, 0), &Mean::new(-5, 0, 0)), 1);
    assert_eq!(squared_distance(&Sample::new(-6, 0), &Mean::new(5, 0, 0)), 121);
    assert_eq!(squared_distance(&Sample::new(7, -2), &Mean::new(7, -2, 9)), 0);
}

#[test]
fn squared_distance_spans_the_whole_grid() {
    let far = squared_distance(&Sample::new(i32::MIN, i32::MIN), &Mean::new(i32::MAX, i32::MAX, 0));
    let side: u128 = u32::MAX as u128;
    assert_eq!(far, 2 * side * side);
}

#[test]
fn four_samples_split_between_two_means() {
    let samples = vec![Sample::new(-6, 0), Sample::new(-4, 0), Sample::new(4, 0), Sample::new(6, 0)];
    assert_eq!(assign(&samples, &two_means()), vec![0, 0, 1, 1]);
}

#[test]
fn all_samples_on_one_side_choose_one_mean() {
    let samples = vec![Sample::new(6, 0); 4];
    assert_eq!(assign(&samples, &two_means()), vec![1, 1, 1, 1]);
}

#[test]
fn tie_goes_to_the_lowest_index() {
    assert_eq!(nearest_mean(&Sample::new(0, 0), &two_means()), 0);
    assert_eq!(nearest_mean(&Sample::new(0, 9), &two_means()), 0);
    let means = vec![Mean::new(9, 9, 0), Mean::new(1, 0, 0), Mean::new(0, 1, 0), Mean::new(-1, 0, 0)];
    assert_eq!(nearest_mean(&Sample::new(0, 0), &means), 1);
}

#[test]
fn identical_means_all_go_to_the_first() {
    let means = vec![Mean::new(2, 2, 0); 5];
    let samples = vec![Sample::new(0, 0), Sample::new(2, 2), Sample::new(-100, 50)];
    assert_eq!(assign(&samples, &means), vec![0, 0, 0]);
}

#[test]
fn a_later_mean_wins_only_when_strictly_closer() {
    let means = vec![Mean::new(10, 0, 0), Mean::new(9, 0, 0), Mean::new(9, 0, 0)];
    assert_eq!(nearest_mean(&Sample::new(0, 0), &means), 1);
}

#[test]
fn single_mean_takes_every_sample() {
    let means = vec![Mean::new(1000, -1000, 3)];
    let samples = vec![Sample::new(i32::MIN, i32::MAX), Sample::new(0, 0), Sample::new(i32::MAX, i32::MIN)];
    assert_eq!(assign(&samples, &means), vec![0, 0, 0]);
}

#[test]
fn no_samples_give_an_empty_assignment() {
    let samples: Vec<Sample> = Vec::new();
    assert_eq!(assign(&samples, &two_means()), Vec::<usize>::new());
}

#[test]
fn every_sample_gets_one_index_of_a_mean() {
    let means = vec![Mean::new(-30, 10, 0), Mean::new(0, 0, 0), Mean::new(25, -25, 0)];
    let mut samples = Vec::new();
    for x in -40..40 {
        for y in -3..3 {
            samples.push(Sample::new(x, 7 * y));
        }
    }
    let assignment = assign(&samples, &means);
    assert_eq!(assignment.len(), samples.len());
    for (i, &c) in assignment.iter().enumerate() {
        assert!(c < means.len());
        let chosen = squared_distance(&samples[i], &means[c]);
        for (j, mean) in means.iter().enumerate() {
            let other = squared_distance(&samples[i], mean);
            assert!(chosen <= other);
            if other == chosen {
                assert!(c <= j);
            }
        }
    }
    assert_eq!(assignment, assign(&samples, &means));
}
