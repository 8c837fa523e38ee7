use dyon_to_rust::cond_eval;
use dyon_to_rust::intrinsics::{clone, why};
use dyon_to_rust::secret::{Secret, SecretValue};
use dyon_to_rust::textutil::{all_alphanumeric, arg_is_mut, emit_indent, push_dec, sat_add, str_eq};

#[test]
fn secret_new_bool() {
    let s: Secret<bool, f64> = Secret::new_bool(true);
    assert!(s.val);
    assert!(s.secret.is_empty());
    assert!(s.value());
    assert!(cond_eval(&s));
    assert!(!cond_eval(&Secret::<bool, f64>::new_bool(false)));
}

#[test]
fn secret_bit_assign() {
    let mut s: Secret<bool, f64> = Secret::new_bool(true);
    s.and_assign(false);
    assert!(!s.val);
    s.or_assign(true);
    assert!(s.val);
}

#[test]
fn why_reverses_witnesses() {
    let s: Secret<bool, f64> = Secret { val: true, secret: vec![1.0, 2.0, 3.0] };
    assert_eq!(why(&s), vec![3.0, 2.0, 1.0]);
    let empty: Secret<bool, f64> = Secret::new_bool(false);
    assert!(why(&empty).is_empty());
}

#[test]
fn secret_value_views() {
    let s: Secret<f64, f64> = Secret { val: 4.5, secret: vec![2.0] };
    assert_eq!(s.value(), 4.5);
    assert!(true.value());
}

#[test]
fn cond_on_bool() {
    assert!(cond_eval(&true));
    assert!(!cond_eval(&false));
}

#[test]
fn clone_intrinsic() {
    let v: Vec<f64> = vec![1.0, 2.0];
    assert_eq!(clone(&v), v);
    assert_eq!(clone(&7_u64), 7);
}

#[test]
fn decimal_rendering() {
    let mut s = String::new();
    push_dec(&mut s, 0);
    s.push(' ');
    push_dec(&mut s, 7);
    s.push(' ');
    push_dec(&mut s, 10);
    s.push(' ');
    push_dec(&mut s, 105);
    s.push(' ');
    push_dec(&mut s, 120034);
    assert_eq!(s, "0 7 10 105 120034");
}

#[test]
fn indent_spaces() {
    let mut s = String::new();
    emit_indent(&mut s, 3);
    assert_eq!(s, "            ");
}

#[test]
fn string_equality() {
    assert!(str_eq("mut", "mut"));
    assert!(!str_eq("mut", "mu"));
    assert!(!str_eq("mut", "mUt"));
    assert!(str_eq("", ""));
}

#[test]
fn mutability_tag_tokens() {
    assert!(arg_is_mut("foo(mut,_)", 0));
    assert!(!arg_is_mut("foo(mut,_)", 1));
    assert!(!arg_is_mut("foo(mut,_)", 5));
    assert!(arg_is_mut("bar(_,mut,mut)", 2));
    assert!(!arg_is_mut("plain", 0));
    assert!(!arg_is_mut("odd(", 0));
}

#[test]
fn bare_key_classification() {
    assert!(all_alphanumeric("abc123"));
    assert!(all_alphanumeric(""));
    assert!(!all_alphanumeric("a b"));
    assert!(!all_alphanumeric("a_b"));
}

#[test]
fn saturating_add() {
    assert_eq!(sat_add(2, 3), 5);
    assert_eq!(sat_add(usize::MAX - 1, 5), usize::MAX);
}
