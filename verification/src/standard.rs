//! The standard prelude: the definitions that every session starts with.
//!
//! Arithmetic is built from the successor and predecessor primitives; on top
//! of it come list operations, ordering and boolean combinators, a sort and a
//! range. A definition may use the ones listed before it, and, inside a
//! function body, any of them.

use vstd::prelude::*;
use crate::interpreter::{texts, Text};

verus! {

/// The number of definitions in the standard prelude.
pub const PRELUDE_LEN: usize = 17;

/// The standard prelude, in the order in which it is evaluated.
pub const PRELUDE: [&'static str; PRELUDE_LEN] = [
    "(define closure (lambda (x) (lambda (y) (add x y))))",
    "(define add (lambda (x y) (cond (zero? y) x (add (add1 x) (sub1 y)))))",
    "(define mult (lambda (x y) (cond (zero? y) 0 (add (mult x (sub1 y)) x))))",
    "(define filter (lambda (f xs) (cond (null? xs) xs (cond (f (car xs)) (cons (car xs) (filter f (cdr xs))) (filter f (cdr xs))))))",
    "(define map (lambda (f xs) (cond (null? xs) xs (cons (f (car xs)) (map f (cdr xs))))))",
    "(define not (lambda (t) (cond t #f #t)))",
    "(define > (lambda (x y) (cond (zero? x) #f (cond (zero? y) #t (> (sub1 x) (sub1 y))))))",
    "(define and (lambda (t1 t2) (cond t1 t2 #f)))",
    "(define append (lambda (l1 l2) (cond (null? l2) l1 (cons (car l2) (append l1 (cdr l2))))))",
    "(define range (lambda (start end) (cond (> end start) (cons end (range start (sub1 end))) (list start))))",
    "(define sort (lambda (l) (cond (null? l) l (append (cons (car l) (sort (filter (lambda (x) (not (> x (car l)))) (cdr l)))) (sort (filter (lambda (x) (> x (car l))) l))))))",
    "(define or (lambda (x y) (cond x #t y)))",
    "(define zip (lambda (x y) (cond (or (null? x) (null? y)) (list) (cons (list (car x) (car y)) (zip (cdr x) (cdr y))))))",
    "(define map2 (lambda (f l) (cond (null? l) l (cons (f (car (cdr (car l))) (car (car l))) (map2 f (cdr l))))))",
    "(define reverse (lambda (l) (cond (null? l) l (append (list (car l)) (reverse (cdr l))))))",
    "(define !! (lambda (l i) (cond (zero? i) (car l) (!! (cdr l) (sub1 i)))))",
    "(define foldr (lambda (f xs init) (cond (null? xs) init (foldr f (cdr xs) (f init (car xs))))))",
];

/// The names that the standard prelude defines, each at the place of its
/// definition.
pub const PRELUDE_NAMES: [&'static str; PRELUDE_LEN] = [
    "closure",
    "add",
    "mult",
    "filter",
    "map",
    "not",
    ">",
    "and",
    "append",
    "range",
    "sort",
    "or",
    "zip",
    "map2",
    "reverse",
    "!!",
    "foldr",
];

/// The texts of the standard prelude's definitions, in order.
pub open spec fn standard_texts() -> Seq<Text> {
    Seq::new(PRELUDE_LEN as nat, |i: int| PRELUDE@[i]@)
}

/// The names that the standard prelude defines, in order.
pub open spec fn standard_name_texts() -> Seq<Text> {
    Seq::new(PRELUDE_LEN as nat, |i: int| PRELUDE_NAMES@[i]@)
}

/// Whether `definition` has the form of a definition of `name`.
pub open spec fn defines(definition: Text, name: Text) -> bool {
    ("(define "@ + name + " "@).is_prefix_of(definition)
}

fn owned(literals: &[&'static str; PRELUDE_LEN]) -> (list: Vec<String>)
    ensures
        texts(list@) == Seq::new(PRELUDE_LEN as nat, |i: int| literals@[i]@),
{
    let mut list: Vec<String> = Vec::new();
    let mut entry: usize = 0;
    while entry < PRELUDE_LEN
        invariant
            entry <= PRELUDE_LEN,
            list@.len() == entry,
            forall|i: int| 0 <= i < entry ==> list@[i]@ == literals@[i]@,
        decreases PRELUDE_LEN - entry,
    {
        list.push(String::from_str(literals[entry]));
        entry += 1;
    }
    assert(texts(list@) =~= Seq::new(PRELUDE_LEN as nat, |i: int| literals@[i]@));
    list
}

/// The standard prelude as a list of definitions to bootstrap a session from.
pub fn standard_prelude() -> (definitions: Vec<String>)
    ensures
        texts(definitions@) == standard_texts(),
{
    owned(&PRELUDE)
}

/// The names that a session holds after the standard prelude, in the order
/// of their definition.
pub fn standard_names() -> (names: Vec<String>)
    ensures
        texts(names@) == standard_name_texts(),
{
    owned(&PRELUDE_NAMES)
}

/// Each definition of the standard prelude has the form of a definition of
/// the name listed at its place.
pub proof fn lemma_standard_prelude_defines_its_names(entry: int)
    requires
        0 <= entry < PRELUDE_LEN,
    ensures
        defines(standard_texts()[entry], standard_name_texts()[entry]),
{
    reveal_strlit("(define ");
    reveal_strlit(" ");
    let definition = standard_texts()[entry];
    let name = standard_name_texts()[entry];
    let head = "(define "@ + name + " "@;
    if entry == 0 {
        reveal_strlit("closure");
        reveal_strlit("(define closure (lambda (x) (lambda (y) (add x y))))");
        assert(definition.subrange(0, head.len() as int) =~= head);
    } else if entry == 1 {
        reveal_strlit("add");
        reveal_strlit("(define add (lambda (x y) (cond (zero? y) x (add (add1 x) (sub1 y)))))");
        assert(definition.subrange(0, head.len() as int) =~= head);
    } else if entry == 2 {
        reveal_strlit("mult");
        reveal_strlit("(define mult (lambda (x y) (cond (zero? y) 0 (add (mult x (sub1 y)) x))))");
        assert(definition.subrange(0, head.len() as int) =~= head);
    } else if entry == 3 {
        reveal_strlit("filter");
        reveal_strlit("(define filter (lambda (f xs) (cond (null? xs) xs (cond (f (car xs)) (cons (car xs) (filter f (cdr xs))) (filter f (cdr xs))))))");
        assert(definition.subrange(0, head.len() as int) =~= head);
    } else if entry == 4 {
        reveal_strlit("map");
        reveal_strlit("(define map (lambda (f xs) (cond (null? xs) xs (cons (f (car xs)) (map f (cdr xs))))))");
        assert(definition.subrange(0, head.len() as int) =~= head);
    } else if entry == 5 {
        reveal_strlit("not");
        reveal_strlit("(define not (lambda (t) (cond t #f #t)))");
        assert(definition.subrange(0, head.len() as int) =~= head);
    } else if entry == 6 {
        reveal_strlit(">");
        reveal_strlit("(define > (lambda (x y) (cond (zero? x) #f (cond (zero? y) #t (> (sub1 x) (sub1 y))))))");
        assert(definition.subrange(0, head.len() as int) =~= head);
    } else if entry == 7 {
        reveal_strlit("and");
        reveal_strlit("(define and (lambda (t1 t2) (cond t1 t2 #f)))");
        assert(definition.subrange(0, head.len() as int) =~= head);
    } else if entry == 8 {
        reveal_strlit("append");
        reveal_strlit("(define append (lambda (l1 l2) (cond (null? l2) l1 (cons (car l2) (append l1 (cdr l2))))))");
        assert(definition.subrange(0, head.len() as int) =~= head);
    } else if entry == 9 {
        reveal_strlit("range");
        reveal_strlit("(define range (lambda (start end) (cond (> end start) (cons end (range start (sub1 end))) (list start))))");
        assert(definition.subrange(0, head.len() as int) =~= head);
    } else if entry == 10 {
        reveal_strlit("sort");
        reveal_strlit("(define sort (lambda (l) (cond (null? l) l (append (cons (car l) (sort (filter (lambda (x) (not (> x (car l)))) (cdr l)))) (sort (filter (lambda (x) (> x (car l))) l))))))");
        assert(definition.subrange(0, head.len() as int) =~= head);
    } else if entry == 11 {
        reveal_strlit("or");
        reveal_strlit("(define or (lambda (x y) (cond x #t y)))");
        assert(definition.subrange(0, head.len() as int) =~= head);
    } else if entry == 12 {
        reveal_strlit("zip");
        reveal_strlit("(define zip (lambda (x y) (cond (or (null? x) (null? y)) (list) (cons (list (car x) (car y)) (zip (cdr x) (cdr y))))))");
        assert(definition.subrange(0, head.len() as int) =~= head);
    } else if entry == 13 {
        reveal_strlit("map2");
        reveal_strlit("(define map2 (lambda (f l) (cond (null? l) l (cons (f (car (cdr (car l))) (car (car l))) (map2 f (cdr l))))))");
        assert(definition.subrange(0, head.len() as int) =~= head);
    } else if entry == 14 {
        reveal_strlit("reverse");
        reveal_strlit("(define reverse (lambda (l) (cond (null? l) l (append (list (car l)) (reverse (cdr l))))))");
        assert(definition.subrange(0, head.len() as int) =~= head);
    } else if entry == 15 {
        reveal_strlit("!!");
        reveal_strlit("(define !! (lambda (l i) (cond (zero? i) (car l) (!! (cdr l) (sub1 i)))))");
        assert(definition.subrange(0, head.len() as int) =~= head);
    } else {
        reveal_strlit("foldr");
        reveal_strlit("(define foldr (lambda (f xs init) (cond (null? xs) init (foldr f (cdr xs) (f init (car xs))))))");
        assert(definition.subrange(0, head.len() as int) =~= head);
    }
}

} // verus!
