use rust_engine::anagram::anagram_for;
use rust_engine::big_int::{BigInt, Minimum};
use rust_engine::binary_heap::FileJob;
use rust_engine::cache_objects::{cache_object_name, get_cache_objects};
use rust_engine::collatz::{collatz, collatz_path, collatz_within, lowest_start_with_steps};
use rust_engine::decimal::{i64_digits, u64_digits};
use rust_engine::fizzbuzz::fizzbuzz;
use rust_engine::guessing::{judge, message, pick_secret, GuessReply};
use rust_engine::hw01::odd_predicate;
use rust_engine::lifetime::{Car, Person};
use rust_engine::pizza::{get_another_slice, Pizza, PizzaConsumer, PizzaSlice};
use rust_engine::priority_queue::PriorityQueue;
use rust_engine::rgrep::{filter_lines, line_matches, Options, OutputMode};
use rust_engine::taylor::factorial_iterative;
use rust_engine::text_editor::TextEditor;
use rust_engine::threadpool::{may_take_job, new_thread_ids, Sentinel};
use std::cmp::Ordering;

#[test]
fn text_editor_add_get_reset() {
    let mut editor = TextEditor::new();
    assert_eq!(editor.get_text(), "");
    editor.add_char('a');
    editor.add_char('b');
    editor.add_char('c');
    assert_eq!(editor.get_text(), "abc");
    editor.reset();
    assert_eq!(editor.get_text(), "");
    editor.add_char('é');
    assert_eq!(editor.get_text(), "é");
}

#[test]
fn anagram_finds_none() {
    let inputs = ["tan", "stand", "at"];
    assert!(anagram_for("ant", &inputs).is_empty());
    assert!(anagram_for("", &[]).is_empty());
}

#[test]
fn big_int_new_and_invariant() {
    assert!(BigInt::new(0).data.is_empty());
    assert_eq!(BigInt::new(5).data, vec![5]);
    assert!(BigInt::new(0).test_invariant());
    assert!(BigInt { data: vec![1, 0] }.test_invariant() == false);
    assert!(BigInt { data: vec![0, 1] }.test_invariant());
}

#[test]
fn big_int_from_vec_strips_trailing_zeros() {
    let b1 = BigInt::from_vec(vec![1, 0, 1 << 16, 0, 0, 0, 0]);
    assert_eq!(b1.data, vec![1, 0, 1 << 16]);
    assert!(b1.test_invariant());
    let b2 = BigInt::from_vec(vec![1, 0, 234]);
    assert_eq!(b2.data, vec![1, 0, 234]);
    assert!(BigInt::from_vec(vec![0, 0]).data.is_empty());
    let again = BigInt::from_vec(b1.data.clone());
    assert_eq!(again.data, b1.data);
}

#[test]
fn big_int_min_prefers_fewer_limbs() {
    let a = BigInt::from_vec(vec![1, 2, 3]);
    let b = BigInt::from_vec(vec![9, 9]);
    let c = BigInt::from_vec(vec![7, 7]);
    assert_eq!(a.min_try1(&b).data, vec![9, 9]);
    assert_eq!(b.min_try1(&c).data, vec![9, 9]);
    assert_eq!(Minimum::min(&c, &b).data, vec![7, 7]);
    assert_eq!(Minimum::min(&a, &c).data, vec![7, 7]);
}

#[test]
fn big_int_vec_min_and_head() {
    let v1 = vec![1u64, 0, 1 << 16, 0, 0, 0, 0];
    assert_eq!(BigInt::head(&v1), Some(&1));
    let empty: Vec<u64> = vec![];
    assert_eq!(BigInt::head(&empty), None);
    let bv = vec![
        BigInt::from_vec(vec![1, 0, 1 << 16]),
        BigInt::from_vec(vec![1, 0, 234]),
        BigInt::from_vec(vec![4]),
        BigInt::from_vec(vec![5]),
    ];
    assert_eq!(BigInt::vec_min(&bv).unwrap().data, vec![4]);
    let none: Vec<BigInt> = vec![];
    assert!(BigInt::vec_min(&none).is_none());
}

#[test]
fn collatz_counts_steps() {
    assert_eq!(collatz(1), 0);
    assert_eq!(collatz(2), 1);
    assert_eq!(collatz(6), 8);
    assert_eq!(collatz(27), 111);
    assert_eq!(collatz_path(6), vec![6, 3, 10, 5, 16, 8, 4, 2]);
    assert!(collatz_path(1).is_empty());
}

#[test]
fn collatz_within_bounds() {
    assert_eq!(collatz_within(27, 200), Some(111));
    assert_eq!(collatz_within(27, 110), None);
    assert_eq!(collatz_within(0, 1000), None);
    assert_eq!(collatz_within(-4, 1000), None);
    assert_eq!(collatz_within(i64::MAX, 1000), None);
}

#[test]
fn reverse_collatz_lowest_start() {
    assert_eq!(lowest_start_with_steps(0), Some(1));
    assert_eq!(lowest_start_with_steps(1), Some(2));
    assert_eq!(lowest_start_with_steps(5), Some(5));
    assert_eq!(lowest_start_with_steps(7), Some(3));
    assert_eq!(lowest_start_with_steps(8), Some(6));
    assert_eq!(lowest_start_with_steps(111), Some(27));
    assert_eq!(lowest_start_with_steps(-1), None);
}

#[test]
fn decimal_notation() {
    assert_eq!(u64_digits(0), vec!['0']);
    assert_eq!(u64_digits(1907).into_iter().collect::<String>(), "1907");
    assert_eq!(u64_digits(u64::MAX).into_iter().collect::<String>(), u64::MAX.to_string());
    assert_eq!(i64_digits(-42).into_iter().collect::<String>(), "-42");
    assert_eq!(i64_digits(i64::MIN).into_iter().collect::<String>(), i64::MIN.to_string());
}

#[test]
fn fizzbuzz_words() {
    assert_eq!(fizzbuzz(15), "fizzbuzz");
    assert_eq!(fizzbuzz(0), "fizzbuzz");
    assert_eq!(fizzbuzz(9), "fizz");
    assert_eq!(fizzbuzz(-10), "buzz");
    assert_eq!(fizzbuzz(7), "7");
    assert_eq!(fizzbuzz(-7), "-7");
}

#[test]
fn guessing_replies() {
    assert_eq!(judge(3, 50), GuessReply::TooSmall);
    assert_eq!(judge(70, 50), GuessReply::TooBig);
    assert_eq!(judge(50, 50), GuessReply::Match);
    assert_eq!(message(GuessReply::TooSmall), "Too small");
    assert_eq!(message(GuessReply::TooBig), "Too big");
    assert_eq!(message(GuessReply::Match), "Match found");
    for _ in 0..200 {
        let s = pick_secret();
        assert!((1..=100).contains(&s));
    }
}

#[test]
fn odd_predicate_remainder_one() {
    assert!(odd_predicate(7));
    assert!(!odd_predicate(8));
    assert!(!odd_predicate(-3));
    assert!(!odd_predicate(0));
    let vs = vec![2, 4, 6, 8, 10];
    assert!(vs.iter().all(|&v| !odd_predicate(v)));
}

#[test]
fn person_buys_sells_trades() {
    let honda = Car { model: "Honda".to_string() };
    let toyota = Car { model: "Toyota".to_string() };
    let mut bob = Person::new();
    let mut alice = Person::new();
    assert!(bob.current_car().is_none());
    bob.buy_car(&honda);
    bob.buy_car(&toyota);
    assert_eq!(bob.current_car().unwrap().model, "Toyota");
    bob.trade_with(&mut alice);
    assert!(bob.current_car().is_none());
    assert_eq!(alice.current_car().unwrap().model, "Toyota");
    alice.sell_car();
    assert!(alice.current_car().is_none());
}

#[test]
fn pizza_consumer_takes_slice() {
    let p = Pizza(vec![1, 2, 3, 4]);
    let s = PizzaSlice { pizza: &p, index: 1 };
    let mut c = PizzaConsumer { slice: s, pizza: &p };
    get_another_slice(&mut c, 2);
    assert_eq!(c.slice.index, 2);
    assert_eq!(c.slice.pizza.0, vec![1, 2, 3, 4]);
}

#[test]
fn rgrep_filters_lines() {
    let options = Options {
        files: vec![],
        pattern: "let".to_string(),
        output_mode: OutputMode::Count,
    };
    let lines = vec![
        "let x = 1;".to_string(),
        "fn main() {".to_string(),
        "    outlet".to_string(),
        "le t".to_string(),
    ];
    assert_eq!(filter_lines(&options, lines), vec!["let x = 1;".to_string(), "    outlet".to_string()]);
    assert!(line_matches(&options, "letter"));
    assert!(!line_matches(&options, "l"));
    let any = Options { files: vec![], pattern: String::new(), output_mode: OutputMode::Print };
    assert!(line_matches(&any, ""));
    assert_eq!(filter_lines(&any, vec!["a".to_string(), "".to_string()]).len(), 2);
}

#[test]
fn factorials() {
    assert_eq!(factorial_iterative(0), 1);
    assert_eq!(factorial_iterative(1), 1);
    assert_eq!(factorial_iterative(5), 120);
    assert_eq!(factorial_iterative(20), 2432902008176640000);
}

#[test]
fn cache_object_names() {
    assert_eq!(cache_object_name(0), "Cache_object_0");
    assert_eq!(cache_object_name(255), "Cache_object_255");
    let names = get_cache_objects(10);
    assert_eq!(names.len(), 10);
    for n in names {
        let number: u32 = n.strip_prefix("Cache_object_").unwrap().parse().unwrap();
        assert!(number <= 255);
    }
}

#[test]
fn sized_jobs_order() {
    let a = FileJob::new("file1.txt".to_string(), 10);
    let b = FileJob::new("file2.txt".to_string(), 200);
    assert_eq!(a.cmp(&b), Ordering::Greater);
    assert_eq!(b.cmp(&a), Ordering::Less);
    assert_eq!(a.partial_cmp(&FileJob::new("x".to_string(), 10)), Some(Ordering::Equal));
    assert!(a.eq(&FileJob::new("y".to_string(), 10)));
    assert_eq!(a.filename(), "file1.txt");
    assert_eq!(a.filesize(), 10);
    let mut q = PriorityQueue::new();
    q.push(b);
    q.push(a);
    q.push(FileJob::new("file3.txt".to_string(), 0));
    assert_eq!(q.pop().unwrap().filesize(), 0);
    assert_eq!(q.pop().unwrap().filesize(), 10);
    assert_eq!(q.pop().unwrap().filesize(), 200);
}

#[test]
fn number_heap_pops_largest() {
    let mut q: PriorityQueue<u32> = PriorityQueue::new();
    for v in [5u32, 99, 1, 99, 42] {
        q.push(v);
    }
    assert_eq!(q.peek(), Some(&99));
    let out: Vec<u32> = std::iter::from_fn(|| q.pop()).collect();
    assert_eq!(out, vec![99, 99, 42, 5, 1]);
    assert!(q.is_empty());
}

#[test]
fn sentinel_lifecycle() {
    let jobs = 1u8;
    let counter = 2usize;
    let max = 3usize;
    let mut s = Sentinel::new(&jobs, &counter, &max);
    assert!(s.active);
    assert_eq!(s.request_counter, 0);
    s.record_request();
    s.record_request();
    assert_eq!(s.request_counter, 2);
    s.cancel();
    assert!(!s.active);
    assert_eq!(s.request_counter, 2);
}

#[test]
fn pool_growth_ids() {
    assert_eq!(new_thread_ids(4, 6), vec![4, 5]);
    assert!(new_thread_ids(4, 2).is_empty());
    assert!(new_thread_ids(4, 4).is_empty());
    assert_eq!(new_thread_ids(254, 258), vec![254, 255, 0, 1]);
    assert!(may_take_job(1, 4));
    assert!(!may_take_job(4, 4));
}
