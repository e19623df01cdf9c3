use tx::Tx;

#[derive(Clone, Debug)]
struct S {
    d: Vec<u32>,
}

impl S {
    fn tx(&mut self) -> Tx<'_, Self> {
        Tx::new(self)
    }

    fn add(&mut self, item: u32) {
        self.d.push(item);
    }

    fn pop(&mut self) {
        self.d.pop();
    }
}

#[test]
fn transaction() {
    let mut s = S { d: vec![] };
    assert_eq!(s.d, vec![]);
    s.add(1);
    assert_eq!(s.d, vec![1]);
    {
        let mut s = s.tx();
        s.add(2);
        assert_eq!(s.d, vec![1, 2]);
    }
    assert_eq!(s.d, vec![1]);
    {
        let mut s = s.tx();
        s.add(2);
        assert_eq!(s.d, vec![1, 2]);
        s.commit();
        assert_eq!(s.d, vec![1, 2]);
    }
    assert_eq!(s.d, vec![1, 2]);
    {
        let mut s = s.tx();
        s.add(3);
        assert_eq!(s.d, vec![1, 2, 3]);
        s.rollback();
        assert_eq!(s.d, vec![1, 2]);
    }
    assert_eq!(s.d, vec![1, 2]);
    {
        let mut s = s.tx();
        s.pop();
        s.pop();
        assert_eq!(s.d, vec![]);
    }
    assert_eq!(s.d, vec![1, 2]);
    {
        let mut s = s.tx();
        s.pop();
        s.commit();
        assert_eq!(s.d, vec![1]);
        s.rollback(); // acts like a new transaction
        s.pop();
        assert_eq!(s.d, vec![]);
    }
    assert_eq!(s.d, vec![1]);
}

#[test]
fn usage_with_commit_then_rollback() {
    let mut s = S { d: vec![] };
    {
        let mut s = s.tx();
        s.add(1);
        assert_eq!(s.d, vec![1]);
    }
    assert_eq!(s.d, vec![]);
    {
        let mut s = s.tx();
        s.add(1);
        s.commit();
        assert_eq!(s.d, vec![1]);
    }
    assert_eq!(s.d, vec![1]);
    {
        let mut s = s.tx();
        s.add(2);
        assert_eq!(s.d, vec![1, 2]);
        s.commit();
        s.add(3);
        assert_eq!(s.d, vec![1, 2, 3]);
        s.rollback();
        assert_eq!(s.d, vec![1, 2]);
    }
    assert_eq!(s.d, vec![1, 2]);
}
