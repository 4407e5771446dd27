use wasmadeus::signal::Mutable;

/// Writing a signal that is known to be writable.
trait Write<T> {
    fn set(&self, new_value: T);

    fn mutate<F: FnOnce(&mut T)>(&self, mutate: F);
}

impl<T: 'static> Write<T> for Mutable<T> {
    fn set(&self, new_value: T) {
        self.try_set(new_value).unwrap();
    }

    fn mutate<F: FnOnce(&mut T)>(&self, mutate: F) {
        self.try_mutate(mutate).unwrap();
    }
}

/// Reading a signal that is known to be readable.
trait Get<T> {
    fn get(&self) -> T;
}

impl<T: Clone + 'static> Get<T> for Mutable<T> {
    fn get(&self) -> T {
        self.try_get().unwrap()
    }
}

#[test]
pub fn signals_unsubscribe_in_notify() {
    let signal = Mutable::new("hello");

    signal.for_each_inner(|_, unsub| {
        unsub.unsubscribe();
    });
}

#[test]
pub fn unsubscribe_in_notify2() {
    let signal = Mutable::new("hello");

    let mut count = 0;
    signal.for_each_inner(move |_, unsub| match count {
        2 => unsub.unsubscribe(),
        _ => count += 1,
    });

    signal.set("goodbye");
}

#[test]
#[should_panic]
pub fn signals_get_in_mutate() {
    let signal = Mutable::new("hello");

    signal.mutate(|txt| {
        signal.get();
        *txt = "goodbye";
    });
}
