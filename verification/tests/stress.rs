use std::cell::RefCell;
use std::rc::Rc;

use wasmadeus::signal::SignalMut;
use wasmadeus::signal::SignalUnsubscriber;

struct Lcg(u64);

impl Lcg {
    fn next(&mut self, bound: u64) -> u64 {
        self.0 = self.0.wrapping_mul(6364136223846793005).wrapping_add(1442695040888963407);
        (self.0 >> 33) % bound
    }
}

struct World {
    signal: SignalMut<u64>,
    // What each subscriber has been told, by its name.
    told: Rc<RefCell<Vec<(usize, u64)>>>,
    tokens: Vec<(usize, SignalUnsubscriber<u64>)>,
    // The names of the subscribers that are to be told, in order.
    expected: Vec<usize>,
    names: usize,
}

impl World {
    fn subscribe(&mut self) {
        let name = self.names;
        self.names += 1;
        let log = self.told.clone();
        let token = self.signal.for_each(move |v| log.borrow_mut().push((name, *v)));
        self.tokens.push((name, token));
        self.expected.push(name);
    }
}

#[test]
fn random_subscriptions_and_writes() {
    let mut rng = Lcg(42);
    let mut world = World {
        signal: SignalMut::new(0),
        told: Rc::new(RefCell::new(Vec::new())),
        tokens: Vec::new(),
        expected: Vec::new(),
        names: 0,
    };
    for round in 1..=400u64 {
        match rng.next(4) {
            0 => {
                let before = world.told.borrow().len();
                let value = world.signal.try_get().unwrap();
                world.subscribe();
                let told = world.told.borrow();
                assert_eq!(told.len(), before + 1);
                assert_eq!(told[before], (world.names - 1, value));
            }
            1 if !world.tokens.is_empty() => {
                let at = rng.next(world.tokens.len() as u64) as usize;
                let (name, mut token) = world.tokens.remove(at);
                token.unsubscribe();
                token.unsubscribe();
                world.expected.retain(|n| *n != name);
            }
            _ => {
                world.told.borrow_mut().clear();
                world.signal.try_set(round).unwrap();
                let want: Vec<(usize, u64)> = world.expected.iter().map(|n| (*n, round)).collect();
                assert_eq!(*world.told.borrow(), want);
                assert_eq!(world.signal.try_get(), Ok(round));
            }
        }
    }
}

#[test]
fn random_reentrant_actions() {
    // Every subscriber may, when told of a value, cancel itself or add a
    // subscriber; whoever is active when its turn comes is told once.
    let mut rng = Lcg(7);
    let signal = SignalMut::new(0u64);
    let told: Rc<RefCell<Vec<(usize, u64)>>> = Rc::new(RefCell::new(Vec::new()));
    let names = Rc::new(RefCell::new(0usize));
    // For each value, the names that cancel themselves and those that add.
    let plan: Rc<RefCell<Vec<(u64, usize, bool)>>> = Rc::new(RefCell::new(Vec::new()));

    fn add(
        signal: &SignalMut<u64>,
        told: &Rc<RefCell<Vec<(usize, u64)>>>,
        names: &Rc<RefCell<usize>>,
        plan: &Rc<RefCell<Vec<(u64, usize, bool)>>>,
    ) -> usize {
        let name = *names.borrow();
        *names.borrow_mut() += 1;
        let (s, t, n, p) = (signal.clone(), told.clone(), names.clone(), plan.clone());
        signal.for_each_inner(move |v, unsub| {
            t.borrow_mut().push((name, *v));
            let todo: Vec<bool> = p
                .borrow()
                .iter()
                .filter(|(value, who, _)| *value == *v && *who == name)
                .map(|(_, _, cancel)| *cancel)
                .collect();
            for cancel in todo {
                if cancel {
                    unsub.unsubscribe();
                } else {
                    add(&s, &t, &n, &p);
                }
            }
        });
        name
    }

    let mut active: Vec<usize> = Vec::new();
    for _ in 0..5 {
        active.push(add(&signal, &told, &names, &plan));
    }
    for round in 1..=200u64 {
        plan.borrow_mut().clear();
        let mut want: Vec<(usize, u64)> = Vec::new();
        let mut next_name = *names.borrow();
        let mut after: Vec<usize> = Vec::new();
        let mut queue: Vec<usize> = active.clone();
        let mut at = 0;
        while at < queue.len() {
            let name = queue[at];
            at += 1;
            want.push((name, round));
            let mut cancelled = false;
            match rng.next(6) {
                0 => {
                    plan.borrow_mut().push((round, name, true));
                    cancelled = true;
                }
                1 if queue.len() < 40 => {
                    plan.borrow_mut().push((round, name, false));
                    queue.push(next_name);
                    next_name += 1;
                }
                _ => {}
            }
            if !cancelled {
                after.push(name);
            }
        }
        // A subscriber that is added during the pass is first told by
        // that pass, not at once: the value cannot be shown while it is
        // being written.
        told.borrow_mut().clear();
        signal.try_set(round).unwrap();
        assert_eq!(*told.borrow(), want, "round {}", round);
        after.sort();
        active = after;
        assert_eq!(*names.borrow(), next_name);
    }
}
