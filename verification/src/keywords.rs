//! Symbol keywords and style markers.
//!
//! A letter run is rendered by matching symbol keywords as prefixes,
//! longest keyword first so that a longer keyword is never shadowed by a
//! shorter one that is also a prefix of it; a character that starts no
//! keyword is mapped through the active style's table. A run that is,
//! as a whole, a style marker selects a style instead of rendering.

use vstd::prelude::*;
use crate::style::spec_style_map;
use crate::style::style_map;
use crate::style::Style;

verus! {

/// Whether the keyword `emptyset` starts at position `i` of a letter run.
pub open spec fn kw_emptyset_at(w: Seq<char>, i: int) -> bool {
    i + 8 <= w.len() && w[i + 0] == 'e' && w[i + 1] == 'm' && w[i + 2] == 'p' && w[i + 3] == 't' && w[i + 4] == 'y' && w[i + 5] == 's' && w[i + 6] == 'e' && w[i + 7] == 't'
}

fn kw_emptyset_m(w: &Vec<char>, i: usize) -> (r: bool)
    requires
        i <= w@.len(),
    ensures
        r == kw_emptyset_at(w@, i as int),
{
    w.len() - i >= 8 && w[i + 0] == 'e' && w[i + 1] == 'm' && w[i + 2] == 'p' && w[i + 3] == 't' && w[i + 4] == 'y' && w[i + 5] == 's' && w[i + 6] == 'e' && w[i + 7] == 't'
}

/// Whether the keyword `implies` starts at position `i` of a letter run.
pub open spec fn kw_implies_at(w: Seq<char>, i: int) -> bool {
    i + 7 <= w.len() && w[i + 0] == 'i' && w[i + 1] == 'm' && w[i + 2] == 'p' && w[i + 3] == 'l' && w[i + 4] == 'i' && w[i + 5] == 'e' && w[i + 6] == 's'
}

fn kw_implies_m(w: &Vec<char>, i: usize) -> (r: bool)
    requires
        i <= w@.len(),
    ensures
        r == kw_implies_at(w@, i as int),
{
    w.len() - i >= 7 && w[i + 0] == 'i' && w[i + 1] == 'm' && w[i + 2] == 'p' && w[i + 3] == 'l' && w[i + 4] == 'i' && w[i + 5] == 'e' && w[i + 6] == 's'
}

/// Whether the keyword `exists` starts at position `i` of a letter run.
pub open spec fn kw_exists_at(w: Seq<char>, i: int) -> bool {
    i + 6 <= w.len() && w[i + 0] == 'e' && w[i + 1] == 'x' && w[i + 2] == 'i' && w[i + 3] == 's' && w[i + 4] == 't' && w[i + 5] == 's'
}

fn kw_exists_m(w: &Vec<char>, i: usize) -> (r: bool)
    requires
        i <= w@.len(),
    ensures
        r == kw_exists_at(w@, i as int),
{
    w.len() - i >= 6 && w[i + 0] == 'e' && w[i + 1] == 'x' && w[i + 2] == 'i' && w[i + 3] == 's' && w[i + 4] == 't' && w[i + 5] == 's'
}

/// Whether the keyword `forall` starts at position `i` of a letter run.
pub open spec fn kw_forall_at(w: Seq<char>, i: int) -> bool {
    i + 6 <= w.len() && w[i + 0] == 'f' && w[i + 1] == 'o' && w[i + 2] == 'r' && w[i + 3] == 'a' && w[i + 4] == 'l' && w[i + 5] == 'l'
}

fn kw_forall_m(w: &Vec<char>, i: usize) -> (r: bool)
    requires
        i <= w@.len(),
    ensures
        r == kw_forall_at(w@, i as int),
{
    w.len() - i >= 6 && w[i + 0] == 'f' && w[i + 1] == 'o' && w[i + 2] == 'r' && w[i + 3] == 'a' && w[i + 4] == 'l' && w[i + 5] == 'l'
}

/// Whether the keyword `lambda` starts at position `i` of a letter run.
pub open spec fn kw_lambda_at(w: Seq<char>, i: int) -> bool {
    i + 6 <= w.len() && w[i + 0] == 'l' && w[i + 1] == 'a' && w[i + 2] == 'm' && w[i + 3] == 'b' && w[i + 4] == 'd' && w[i + 5] == 'a'
}

fn kw_lambda_m(w: &Vec<char>, i: usize) -> (r: bool)
    requires
        i <= w@.len(),
    ensures
        r == kw_lambda_at(w@, i as int),
{
    w.len() - i >= 6 && w[i + 0] == 'l' && w[i + 1] == 'a' && w[i + 2] == 'm' && w[i + 3] == 'b' && w[i + 4] == 'd' && w[i + 5] == 'a'
}

/// Whether the keyword `alpha` starts at position `i` of a letter run.
pub open spec fn kw_alpha_at(w: Seq<char>, i: int) -> bool {
    i + 5 <= w.len() && w[i + 0] == 'a' && w[i + 1] == 'l' && w[i + 2] == 'p' && w[i + 3] == 'h' && w[i + 4] == 'a'
}

fn kw_alpha_m(w: &Vec<char>, i: usize) -> (r: bool)
    requires
        i <= w@.len(),
    ensures
        r == kw_alpha_at(w@, i as int),
{
    w.len() - i >= 5 && w[i + 0] == 'a' && w[i + 1] == 'l' && w[i + 2] == 'p' && w[i + 3] == 'h' && w[i + 4] == 'a'
}

/// Whether the keyword `delta` starts at position `i` of a letter run.
pub open spec fn kw_delta_at(w: Seq<char>, i: int) -> bool {
    i + 5 <= w.len() && w[i + 0] == 'd' && w[i + 1] == 'e' && w[i + 2] == 'l' && w[i + 3] == 't' && w[i + 4] == 'a'
}

fn kw_delta_m(w: &Vec<char>, i: usize) -> (r: bool)
    requires
        i <= w@.len(),
    ensures
        r == kw_delta_at(w@, i as int),
{
    w.len() - i >= 5 && w[i + 0] == 'd' && w[i + 1] == 'e' && w[i + 2] == 'l' && w[i + 3] == 't' && w[i + 4] == 'a'
}

/// Whether the keyword `gamma` starts at position `i` of a letter run.
pub open spec fn kw_gamma_at(w: Seq<char>, i: int) -> bool {
    i + 5 <= w.len() && w[i + 0] == 'g' && w[i + 1] == 'a' && w[i + 2] == 'm' && w[i + 3] == 'm' && w[i + 4] == 'a'
}

fn kw_gamma_m(w: &Vec<char>, i: usize) -> (r: bool)
    requires
        i <= w@.len(),
    ensures
        r == kw_gamma_at(w@, i as int),
{
    w.len() - i >= 5 && w[i + 0] == 'g' && w[i + 1] == 'a' && w[i + 2] == 'm' && w[i + 3] == 'm' && w[i + 4] == 'a'
}

/// Whether the keyword `notin` starts at position `i` of a letter run.
pub open spec fn kw_notin_at(w: Seq<char>, i: int) -> bool {
    i + 5 <= w.len() && w[i + 0] == 'n' && w[i + 1] == 'o' && w[i + 2] == 't' && w[i + 3] == 'i' && w[i + 4] == 'n'
}

fn kw_notin_m(w: &Vec<char>, i: usize) -> (r: bool)
    requires
        i <= w@.len(),
    ensures
        r == kw_notin_at(w@, i as int),
{
    w.len() - i >= 5 && w[i + 0] == 'n' && w[i + 1] == 'o' && w[i + 2] == 't' && w[i + 3] == 'i' && w[i + 4] == 'n'
}

/// Whether the keyword `omega` starts at position `i` of a letter run.
pub open spec fn kw_omega_at(w: Seq<char>, i: int) -> bool {
    i + 5 <= w.len() && w[i + 0] == 'o' && w[i + 1] == 'm' && w[i + 2] == 'e' && w[i + 3] == 'g' && w[i + 4] == 'a'
}

fn kw_omega_m(w: &Vec<char>, i: usize) -> (r: bool)
    requires
        i <= w@.len(),
    ensures
        r == kw_omega_at(w@, i as int),
{
    w.len() - i >= 5 && w[i + 0] == 'o' && w[i + 1] == 'm' && w[i + 2] == 'e' && w[i + 3] == 'g' && w[i + 4] == 'a'
}

/// Whether the keyword `sigma` starts at position `i` of a letter run.
pub open spec fn kw_sigma_at(w: Seq<char>, i: int) -> bool {
    i + 5 <= w.len() && w[i + 0] == 's' && w[i + 1] == 'i' && w[i + 2] == 'g' && w[i + 3] == 'm' && w[i + 4] == 'a'
}

fn kw_sigma_m(w: &Vec<char>, i: usize) -> (r: bool)
    requires
        i <= w@.len(),
    ensures
        r == kw_sigma_at(w@, i as int),
{
    w.len() - i >= 5 && w[i + 0] == 's' && w[i + 1] == 'i' && w[i + 2] == 'g' && w[i + 3] == 'm' && w[i + 4] == 'a'
}

/// Whether the keyword `theta` starts at position `i` of a letter run.
pub open spec fn kw_theta_at(w: Seq<char>, i: int) -> bool {
    i + 5 <= w.len() && w[i + 0] == 't' && w[i + 1] == 'h' && w[i + 2] == 'e' && w[i + 3] == 't' && w[i + 4] == 'a'
}

fn kw_theta_m(w: &Vec<char>, i: usize) -> (r: bool)
    requires
        i <= w@.len(),
    ensures
        r == kw_theta_at(w@, i as int),
{
    w.len() - i >= 5 && w[i + 0] == 't' && w[i + 1] == 'h' && w[i + 2] == 'e' && w[i + 3] == 't' && w[i + 4] == 'a'
}

/// Whether the keyword `beta` starts at position `i` of a letter run.
pub open spec fn kw_beta_at(w: Seq<char>, i: int) -> bool {
    i + 4 <= w.len() && w[i + 0] == 'b' && w[i + 1] == 'e' && w[i + 2] == 't' && w[i + 3] == 'a'
}

fn kw_beta_m(w: &Vec<char>, i: usize) -> (r: bool)
    requires
        i <= w@.len(),
    ensures
        r == kw_beta_at(w@, i as int),
{
    w.len() - i >= 4 && w[i + 0] == 'b' && w[i + 1] == 'e' && w[i + 2] == 't' && w[i + 3] == 'a'
}

/// Whether the keyword `prod` starts at position `i` of a letter run.
pub open spec fn kw_prod_at(w: Seq<char>, i: int) -> bool {
    i + 4 <= w.len() && w[i + 0] == 'p' && w[i + 1] == 'r' && w[i + 2] == 'o' && w[i + 3] == 'd'
}

fn kw_prod_m(w: &Vec<char>, i: usize) -> (r: bool)
    requires
        i <= w@.len(),
    ensures
        r == kw_prod_at(w@, i as int),
{
    w.len() - i >= 4 && w[i + 0] == 'p' && w[i + 1] == 'r' && w[i + 2] == 'o' && w[i + 3] == 'd'
}

/// Whether the keyword `sqrt` starts at position `i` of a letter run.
pub open spec fn kw_sqrt_at(w: Seq<char>, i: int) -> bool {
    i + 4 <= w.len() && w[i + 0] == 's' && w[i + 1] == 'q' && w[i + 2] == 'r' && w[i + 3] == 't'
}

fn kw_sqrt_m(w: &Vec<char>, i: usize) -> (r: bool)
    requires
        i <= w@.len(),
    ensures
        r == kw_sqrt_at(w@, i as int),
{
    w.len() - i >= 4 && w[i + 0] == 's' && w[i + 1] == 'q' && w[i + 2] == 'r' && w[i + 3] == 't'
}

/// Whether the keyword `sube` starts at position `i` of a letter run.
pub open spec fn kw_sube_at(w: Seq<char>, i: int) -> bool {
    i + 4 <= w.len() && w[i + 0] == 's' && w[i + 1] == 'u' && w[i + 2] == 'b' && w[i + 3] == 'e'
}

fn kw_sube_m(w: &Vec<char>, i: usize) -> (r: bool)
    requires
        i <= w@.len(),
    ensures
        r == kw_sube_at(w@, i as int),
{
    w.len() - i >= 4 && w[i + 0] == 's' && w[i + 1] == 'u' && w[i + 2] == 'b' && w[i + 3] == 'e'
}

/// Whether the keyword `and` starts at position `i` of a letter run.
pub open spec fn kw_and_at(w: Seq<char>, i: int) -> bool {
    i + 3 <= w.len() && w[i + 0] == 'a' && w[i + 1] == 'n' && w[i + 2] == 'd'
}

fn kw_and_m(w: &Vec<char>, i: usize) -> (r: bool)
    requires
        i <= w@.len(),
    ensures
        r == kw_and_at(w@, i as int),
{
    w.len() - i >= 3 && w[i + 0] == 'a' && w[i + 1] == 'n' && w[i + 2] == 'd'
}

/// Whether the keyword `cap` starts at position `i` of a letter run.
pub open spec fn kw_cap_at(w: Seq<char>, i: int) -> bool {
    i + 3 <= w.len() && w[i + 0] == 'c' && w[i + 1] == 'a' && w[i + 2] == 'p'
}

fn kw_cap_m(w: &Vec<char>, i: usize) -> (r: bool)
    requires
        i <= w@.len(),
    ensures
        r == kw_cap_at(w@, i as int),
{
    w.len() - i >= 3 && w[i + 0] == 'c' && w[i + 1] == 'a' && w[i + 2] == 'p'
}

/// Whether the keyword `cup` starts at position `i` of a letter run.
pub open spec fn kw_cup_at(w: Seq<char>, i: int) -> bool {
    i + 3 <= w.len() && w[i + 0] == 'c' && w[i + 1] == 'u' && w[i + 2] == 'p'
}

fn kw_cup_m(w: &Vec<char>, i: usize) -> (r: bool)
    requires
        i <= w@.len(),
    ensures
        r == kw_cup_at(w@, i as int),
{
    w.len() - i >= 3 && w[i + 0] == 'c' && w[i + 1] == 'u' && w[i + 2] == 'p'
}

/// Whether the keyword `iff` starts at position `i` of a letter run.
pub open spec fn kw_iff_at(w: Seq<char>, i: int) -> bool {
    i + 3 <= w.len() && w[i + 0] == 'i' && w[i + 1] == 'f' && w[i + 2] == 'f'
}

fn kw_iff_m(w: &Vec<char>, i: usize) -> (r: bool)
    requires
        i <= w@.len(),
    ensures
        r == kw_iff_at(w@, i as int),
{
    w.len() - i >= 3 && w[i + 0] == 'i' && w[i + 1] == 'f' && w[i + 2] == 'f'
}

/// Whether the keyword `int` starts at position `i` of a letter run.
pub open spec fn kw_int_at(w: Seq<char>, i: int) -> bool {
    i + 3 <= w.len() && w[i + 0] == 'i' && w[i + 1] == 'n' && w[i + 2] == 't'
}

fn kw_int_m(w: &Vec<char>, i: usize) -> (r: bool)
    requires
        i <= w@.len(),
    ensures
        r == kw_int_at(w@, i as int),
{
    w.len() - i >= 3 && w[i + 0] == 'i' && w[i + 1] == 'n' && w[i + 2] == 't'
}

/// Whether the keyword `not` starts at position `i` of a letter run.
pub open spec fn kw_not_at(w: Seq<char>, i: int) -> bool {
    i + 3 <= w.len() && w[i + 0] == 'n' && w[i + 1] == 'o' && w[i + 2] == 't'
}

fn kw_not_m(w: &Vec<char>, i: usize) -> (r: bool)
    requires
        i <= w@.len(),
    ensures
        r == kw_not_at(w@, i as int),
{
    w.len() - i >= 3 && w[i + 0] == 'n' && w[i + 1] == 'o' && w[i + 2] == 't'
}

/// Whether the keyword `phi` starts at position `i` of a letter run.
pub open spec fn kw_phi_at(w: Seq<char>, i: int) -> bool {
    i + 3 <= w.len() && w[i + 0] == 'p' && w[i + 1] == 'h' && w[i + 2] == 'i'
}

fn kw_phi_m(w: &Vec<char>, i: usize) -> (r: bool)
    requires
        i <= w@.len(),
    ensures
        r == kw_phi_at(w@, i as int),
{
    w.len() - i >= 3 && w[i + 0] == 'p' && w[i + 1] == 'h' && w[i + 2] == 'i'
}

/// Whether the keyword `sub` starts at position `i` of a letter run.
pub open spec fn kw_sub_at(w: Seq<char>, i: int) -> bool {
    i + 3 <= w.len() && w[i + 0] == 's' && w[i + 1] == 'u' && w[i + 2] == 'b'
}

fn kw_sub_m(w: &Vec<char>, i: usize) -> (r: bool)
    requires
        i <= w@.len(),
    ensures
        r == kw_sub_at(w@, i as int),
{
    w.len() - i >= 3 && w[i + 0] == 's' && w[i + 1] == 'u' && w[i + 2] == 'b'
}

/// Whether the keyword `sum` starts at position `i` of a letter run.
pub open spec fn kw_sum_at(w: Seq<char>, i: int) -> bool {
    i + 3 <= w.len() && w[i + 0] == 's' && w[i + 1] == 'u' && w[i + 2] == 'm'
}

fn kw_sum_m(w: &Vec<char>, i: usize) -> (r: bool)
    requires
        i <= w@.len(),
    ensures
        r == kw_sum_at(w@, i as int),
{
    w.len() - i >= 3 && w[i + 0] == 's' && w[i + 1] == 'u' && w[i + 2] == 'm'
}

/// Whether the keyword `ge` starts at position `i` of a letter run.
pub open spec fn kw_ge_at(w: Seq<char>, i: int) -> bool {
    i + 2 <= w.len() && w[i + 0] == 'g' && w[i + 1] == 'e'
}

fn kw_ge_m(w: &Vec<char>, i: usize) -> (r: bool)
    requires
        i <= w@.len(),
    ensures
        r == kw_ge_at(w@, i as int),
{
    w.len() - i >= 2 && w[i + 0] == 'g' && w[i + 1] == 'e'
}

/// Whether the keyword `in` starts at position `i` of a letter run.
pub open spec fn kw_in_at(w: Seq<char>, i: int) -> bool {
    i + 2 <= w.len() && w[i + 0] == 'i' && w[i + 1] == 'n'
}

fn kw_in_m(w: &Vec<char>, i: usize) -> (r: bool)
    requires
        i <= w@.len(),
    ensures
        r == kw_in_at(w@, i as int),
{
    w.len() - i >= 2 && w[i + 0] == 'i' && w[i + 1] == 'n'
}

/// Whether the keyword `le` starts at position `i` of a letter run.
pub open spec fn kw_le_at(w: Seq<char>, i: int) -> bool {
    i + 2 <= w.len() && w[i + 0] == 'l' && w[i + 1] == 'e'
}

fn kw_le_m(w: &Vec<char>, i: usize) -> (r: bool)
    requires
        i <= w@.len(),
    ensures
        r == kw_le_at(w@, i as int),
{
    w.len() - i >= 2 && w[i + 0] == 'l' && w[i + 1] == 'e'
}

/// Whether the keyword `mu` starts at position `i` of a letter run.
pub open spec fn kw_mu_at(w: Seq<char>, i: int) -> bool {
    i + 2 <= w.len() && w[i + 0] == 'm' && w[i + 1] == 'u'
}

fn kw_mu_m(w: &Vec<char>, i: usize) -> (r: bool)
    requires
        i <= w@.len(),
    ensures
        r == kw_mu_at(w@, i as int),
{
    w.len() - i >= 2 && w[i + 0] == 'm' && w[i + 1] == 'u'
}

/// Whether the keyword `ne` starts at position `i` of a letter run.
pub open spec fn kw_ne_at(w: Seq<char>, i: int) -> bool {
    i + 2 <= w.len() && w[i + 0] == 'n' && w[i + 1] == 'e'
}

fn kw_ne_m(w: &Vec<char>, i: usize) -> (r: bool)
    requires
        i <= w@.len(),
    ensures
        r == kw_ne_at(w@, i as int),
{
    w.len() - i >= 2 && w[i + 0] == 'n' && w[i + 1] == 'e'
}

/// Whether the keyword `oo` starts at position `i` of a letter run.
pub open spec fn kw_oo_at(w: Seq<char>, i: int) -> bool {
    i + 2 <= w.len() && w[i + 0] == 'o' && w[i + 1] == 'o'
}

fn kw_oo_m(w: &Vec<char>, i: usize) -> (r: bool)
    requires
        i <= w@.len(),
    ensures
        r == kw_oo_at(w@, i as int),
{
    w.len() - i >= 2 && w[i + 0] == 'o' && w[i + 1] == 'o'
}

/// Whether the keyword `or` starts at position `i` of a letter run.
pub open spec fn kw_or_at(w: Seq<char>, i: int) -> bool {
    i + 2 <= w.len() && w[i + 0] == 'o' && w[i + 1] == 'r'
}

fn kw_or_m(w: &Vec<char>, i: usize) -> (r: bool)
    requires
        i <= w@.len(),
    ensures
        r == kw_or_at(w@, i as int),
{
    w.len() - i >= 2 && w[i + 0] == 'o' && w[i + 1] == 'r'
}

/// Whether the keyword `pi` starts at position `i` of a letter run.
pub open spec fn kw_pi_at(w: Seq<char>, i: int) -> bool {
    i + 2 <= w.len() && w[i + 0] == 'p' && w[i + 1] == 'i'
}

fn kw_pi_m(w: &Vec<char>, i: usize) -> (r: bool)
    requires
        i <= w@.len(),
    ensures
        r == kw_pi_at(w@, i as int),
{
    w.len() - i >= 2 && w[i + 0] == 'p' && w[i + 1] == 'i'
}

/// Whether the keyword `pm` starts at position `i` of a letter run.
pub open spec fn kw_pm_at(w: Seq<char>, i: int) -> bool {
    i + 2 <= w.len() && w[i + 0] == 'p' && w[i + 1] == 'm'
}

fn kw_pm_m(w: &Vec<char>, i: usize) -> (r: bool)
    requires
        i <= w@.len(),
    ensures
        r == kw_pm_at(w@, i as int),
{
    w.len() - i >= 2 && w[i + 0] == 'p' && w[i + 1] == 'm'
}

/// Whether the keyword `to` starts at position `i` of a letter run.
pub open spec fn kw_to_at(w: Seq<char>, i: int) -> bool {
    i + 2 <= w.len() && w[i + 0] == 't' && w[i + 1] == 'o'
}

fn kw_to_m(w: &Vec<char>, i: usize) -> (r: bool)
    requires
        i <= w@.len(),
    ensures
        r == kw_to_at(w@, i as int),
{
    w.len() - i >= 2 && w[i + 0] == 't' && w[i + 1] == 'o'
}

/// Whether the keyword `xx` starts at position `i` of a letter run.
pub open spec fn kw_xx_at(w: Seq<char>, i: int) -> bool {
    i + 2 <= w.len() && w[i + 0] == 'x' && w[i + 1] == 'x'
}

fn kw_xx_m(w: &Vec<char>, i: usize) -> (r: bool)
    requires
        i <= w@.len(),
    ensures
        r == kw_xx_at(w@, i as int),
{
    w.len() - i >= 2 && w[i + 0] == 'x' && w[i + 1] == 'x'
}

/// Whether a whole letter run is the style marker `bold`.
pub open spec fn marker_bold(w: Seq<char>) -> bool {
    w.len() == 4 && w[0] == 'b' && w[1] == 'o' && w[2] == 'l' && w[3] == 'd'
}

fn marker_bold_m(w: &Vec<char>) -> (r: bool)
    ensures
        r == marker_bold(w@),
{
    w.len() == 4 && w[0] == 'b' && w[1] == 'o' && w[2] == 'l' && w[3] == 'd'
}

/// Whether a whole letter run is the style marker `italic`.
pub open spec fn marker_italic(w: Seq<char>) -> bool {
    w.len() == 6 && w[0] == 'i' && w[1] == 't' && w[2] == 'a' && w[3] == 'l' && w[4] == 'i' && w[5] == 'c'
}

fn marker_italic_m(w: &Vec<char>) -> (r: bool)
    ensures
        r == marker_italic(w@),
{
    w.len() == 6 && w[0] == 'i' && w[1] == 't' && w[2] == 'a' && w[3] == 'l' && w[4] == 'i' && w[5] == 'c'
}

/// Whether a whole letter run is the style marker `bolditalic`.
pub open spec fn marker_bolditalic(w: Seq<char>) -> bool {
    w.len() == 10 && w[0] == 'b' && w[1] == 'o' && w[2] == 'l' && w[3] == 'd' && w[4] == 'i' && w[5] == 't' && w[6] == 'a' && w[7] == 'l' && w[8] == 'i' && w[9] == 'c'
}

fn marker_bolditalic_m(w: &Vec<char>) -> (r: bool)
    ensures
        r == marker_bolditalic(w@),
{
    w.len() == 10 && w[0] == 'b' && w[1] == 'o' && w[2] == 'l' && w[3] == 'd' && w[4] == 'i' && w[5] == 't' && w[6] == 'a' && w[7] == 'l' && w[8] == 'i' && w[9] == 'c'
}

/// Whether a whole letter run is the style marker `script`.
pub open spec fn marker_script(w: Seq<char>) -> bool {
    w.len() == 6 && w[0] == 's' && w[1] == 'c' && w[2] == 'r' && w[3] == 'i' && w[4] == 'p' && w[5] == 't'
}

fn marker_script_m(w: &Vec<char>) -> (r: bool)
    ensures
        r == marker_script(w@),
{
    w.len() == 6 && w[0] == 's' && w[1] == 'c' && w[2] == 'r' && w[3] == 'i' && w[4] == 'p' && w[5] == 't'
}

/// Whether a whole letter run is the style marker `fraktur`.
pub open spec fn marker_fraktur(w: Seq<char>) -> bool {
    w.len() == 7 && w[0] == 'f' && w[1] == 'r' && w[2] == 'a' && w[3] == 'k' && w[4] == 't' && w[5] == 'u' && w[6] == 'r'
}

fn marker_fraktur_m(w: &Vec<char>) -> (r: bool)
    ensures
        r == marker_fraktur(w@),
{
    w.len() == 7 && w[0] == 'f' && w[1] == 'r' && w[2] == 'a' && w[3] == 'k' && w[4] == 't' && w[5] == 'u' && w[6] == 'r'
}

/// Whether a whole letter run is the style marker `double`.
pub open spec fn marker_double(w: Seq<char>) -> bool {
    w.len() == 6 && w[0] == 'd' && w[1] == 'o' && w[2] == 'u' && w[3] == 'b' && w[4] == 'l' && w[5] == 'e'
}

fn marker_double_m(w: &Vec<char>) -> (r: bool)
    ensures
        r == marker_double(w@),
{
    w.len() == 6 && w[0] == 'd' && w[1] == 'o' && w[2] == 'u' && w[3] == 'b' && w[4] == 'l' && w[5] == 'e'
}

/// Whether a whole letter run is the style marker `sans`.
pub open spec fn marker_sans(w: Seq<char>) -> bool {
    w.len() == 4 && w[0] == 's' && w[1] == 'a' && w[2] == 'n' && w[3] == 's'
}

fn marker_sans_m(w: &Vec<char>) -> (r: bool)
    ensures
        r == marker_sans(w@),
{
    w.len() == 4 && w[0] == 's' && w[1] == 'a' && w[2] == 'n' && w[3] == 's'
}

/// Whether a whole letter run is the style marker `mono`.
pub open spec fn marker_mono(w: Seq<char>) -> bool {
    w.len() == 4 && w[0] == 'm' && w[1] == 'o' && w[2] == 'n' && w[3] == 'o'
}

fn marker_mono_m(w: &Vec<char>) -> (r: bool)
    ensures
        r == marker_mono(w@),
{
    w.len() == 4 && w[0] == 'm' && w[1] == 'o' && w[2] == 'n' && w[3] == 'o'
}

/// Whether a whole letter run is the style marker `plain`.
pub open spec fn marker_plain(w: Seq<char>) -> bool {
    w.len() == 5 && w[0] == 'p' && w[1] == 'l' && w[2] == 'a' && w[3] == 'i' && w[4] == 'n'
}

fn marker_plain_m(w: &Vec<char>) -> (r: bool)
    ensures
        r == marker_plain(w@),
{
    w.len() == 5 && w[0] == 'p' && w[1] == 'l' && w[2] == 'a' && w[3] == 'i' && w[4] == 'n'
}

/// The style a whole letter run selects when it is a style marker.
pub open spec fn spec_marker_style(w: Seq<char>) -> Option<Style> {
    if marker_bold(w) {
        Some(Style::Bold)
    } else if marker_italic(w) {
        Some(Style::Italic)
    } else if marker_bolditalic(w) {
        Some(Style::BoldItalic)
    } else if marker_script(w) {
        Some(Style::Script)
    } else if marker_fraktur(w) {
        Some(Style::Fraktur)
    } else if marker_double(w) {
        Some(Style::DoubleStruck)
    } else if marker_sans(w) {
        Some(Style::SansSerif)
    } else if marker_mono(w) {
        Some(Style::Monospace)
    } else if marker_plain(w) {
        Some(Style::Plain)
    } else {
        None
    }
}

/// The style a whole letter run selects when it is a style marker, or
/// none when it is ordinary content.
pub fn marker_style(w: &Vec<char>) -> (r: Option<Style>)
    ensures
        r == spec_marker_style(w@),
{
    if marker_bold_m(w) {
        Some(Style::Bold)
    } else if marker_italic_m(w) {
        Some(Style::Italic)
    } else if marker_bolditalic_m(w) {
        Some(Style::BoldItalic)
    } else if marker_script_m(w) {
        Some(Style::Script)
    } else if marker_fraktur_m(w) {
        Some(Style::Fraktur)
    } else if marker_double_m(w) {
        Some(Style::DoubleStruck)
    } else if marker_sans_m(w) {
        Some(Style::SansSerif)
    } else if marker_mono_m(w) {
        Some(Style::Monospace)
    } else if marker_plain_m(w) {
        Some(Style::Plain)
    } else {
        None
    }
}

/// What rendering a letter run from position `i` on yields: at each
/// position the longest symbol keyword that starts there is replaced by
/// its symbol, and a character that starts no keyword is mapped through
/// the active style's table.
pub open spec fn spec_render_word_from(w: Seq<char>, i: int, st: Style) -> Seq<char>
    decreases w.len() - i,
{
    if i < 0 || i >= w.len() {
        Seq::empty()
    } else if kw_emptyset_at(w, i) {
        seq!['\u{2205}'] + spec_render_word_from(w, i + 8, st)
    } else if kw_implies_at(w, i) {
        seq!['\u{21D2}'] + spec_render_word_from(w, i + 7, st)
    } else if kw_exists_at(w, i) {
        seq!['\u{2203}'] + spec_render_word_from(w, i + 6, st)
    } else if kw_forall_at(w, i) {
        seq!['\u{2200}'] + spec_render_word_from(w, i + 6, st)
    } else if kw_lambda_at(w, i) {
        seq!['\u{3BB}'] + spec_render_word_from(w, i + 6, st)
    } else if kw_alpha_at(w, i) {
        seq!['\u{3B1}'] + spec_render_word_from(w, i + 5, st)
    } else if kw_delta_at(w, i) {
        seq!['\u{3B4}'] + spec_render_word_from(w, i + 5, st)
    } else if kw_gamma_at(w, i) {
        seq!['\u{3B3}'] + spec_render_word_from(w, i + 5, st)
    } else if kw_notin_at(w, i) {
        seq!['\u{2209}'] + spec_render_word_from(w, i + 5, st)
    } else if kw_omega_at(w, i) {
        seq!['\u{3C9}'] + spec_render_word_from(w, i + 5, st)
    } else if kw_sigma_at(w, i) {
        seq!['\u{3C3}'] + spec_render_word_from(w, i + 5, st)
    } else if kw_theta_at(w, i) {
        seq!['\u{3B8}'] + spec_render_word_from(w, i + 5, st)
    } else if kw_beta_at(w, i) {
        seq!['\u{3B2}'] + spec_render_word_from(w, i + 4, st)
    } else if kw_prod_at(w, i) {
        seq!['\u{220F}'] + spec_render_word_from(w, i + 4, st)
    } else if kw_sqrt_at(w, i) {
        seq!['\u{221A}'] + spec_render_word_from(w, i + 4, st)
    } else if kw_sube_at(w, i) {
        seq!['\u{2286}'] + spec_render_word_from(w, i + 4, st)
    } else if kw_and_at(w, i) {
        seq!['\u{2227}'] + spec_render_word_from(w, i + 3, st)
    } else if kw_cap_at(w, i) {
        seq!['\u{2229}'] + spec_render_word_from(w, i + 3, st)
    } else if kw_cup_at(w, i) {
        seq!['\u{222A}'] + spec_render_word_from(w, i + 3, st)
    } else if kw_iff_at(w, i) {
        seq!['\u{21D4}'] + spec_render_word_from(w, i + 3, st)
    } else if kw_int_at(w, i) {
        seq!['\u{222B}'] + spec_render_word_from(w, i + 3, st)
    } else if kw_not_at(w, i) {
        seq!['\u{AC}'] + spec_render_word_from(w, i + 3, st)
    } else if kw_phi_at(w, i) {
        seq!['\u{3C6}'] + spec_render_word_from(w, i + 3, st)
    } else if kw_sub_at(w, i) {
        seq!['\u{2282}'] + spec_render_word_from(w, i + 3, st)
    } else if kw_sum_at(w, i) {
        seq!['\u{2211}'] + spec_render_word_from(w, i + 3, st)
    } else if kw_ge_at(w, i) {
        seq!['\u{2265}'] + spec_render_word_from(w, i + 2, st)
    } else if kw_in_at(w, i) {
        seq!['\u{2208}'] + spec_render_word_from(w, i + 2, st)
    } else if kw_le_at(w, i) {
        seq!['\u{2264}'] + spec_render_word_from(w, i + 2, st)
    } else if kw_mu_at(w, i) {
        seq!['\u{3BC}'] + spec_render_word_from(w, i + 2, st)
    } else if kw_ne_at(w, i) {
        seq!['\u{2260}'] + spec_render_word_from(w, i + 2, st)
    } else if kw_oo_at(w, i) {
        seq!['\u{221E}'] + spec_render_word_from(w, i + 2, st)
    } else if kw_or_at(w, i) {
        seq!['\u{2228}'] + spec_render_word_from(w, i + 2, st)
    } else if kw_pi_at(w, i) {
        seq!['\u{3C0}'] + spec_render_word_from(w, i + 2, st)
    } else if kw_pm_at(w, i) {
        seq!['\u{B1}'] + spec_render_word_from(w, i + 2, st)
    } else if kw_to_at(w, i) {
        seq!['\u{2192}'] + spec_render_word_from(w, i + 2, st)
    } else if kw_xx_at(w, i) {
        seq!['\u{D7}'] + spec_render_word_from(w, i + 2, st)
    } else {
        seq![spec_style_map(st, w[i])] + spec_render_word_from(w, i + 1, st)
    }
}

/// What rendering a whole letter run yields.
pub open spec fn spec_render_word(w: Seq<char>, st: Style) -> Seq<char> {
    spec_render_word_from(w, 0, st)
}

/// Render a letter run under the active style.
///
/// Symbol keywords are matched as prefixes, longest first; every other
/// character maps through the style's table, one output character per
/// input character.
pub fn render_word(w: &Vec<char>, st: Style) -> (out: Vec<char>)
    ensures
        out@ == spec_render_word(w@, st),
{
    let mut out: Vec<char> = Vec::new();
    let mut i: usize = 0;
    while i < w.len()
        invariant
            i <= w.len(),
            out@ + spec_render_word_from(w@, i as int, st) == spec_render_word(w@, st),
        decreases w.len() - i,
    {
        let ghost prev = out@;
        let ghost ii = i as int;
        if kw_emptyset_m(w, i) {
            out.push('\u{2205}');
            i += 8;
        } else if kw_implies_m(w, i) {
            out.push('\u{21D2}');
            i += 7;
        } else if kw_exists_m(w, i) {
            out.push('\u{2203}');
            i += 6;
        } else if kw_forall_m(w, i) {
            out.push('\u{2200}');
            i += 6;
        } else if kw_lambda_m(w, i) {
            out.push('\u{3BB}');
            i += 6;
        } else if kw_alpha_m(w, i) {
            out.push('\u{3B1}');
            i += 5;
        } else if kw_delta_m(w, i) {
            out.push('\u{3B4}');
            i += 5;
        } else if kw_gamma_m(w, i) {
            out.push('\u{3B3}');
            i += 5;
        } else if kw_notin_m(w, i) {
            out.push('\u{2209}');
            i += 5;
        } else if kw_omega_m(w, i) {
            out.push('\u{3C9}');
            i += 5;
        } else if kw_sigma_m(w, i) {
            out.push('\u{3C3}');
            i += 5;
        } else if kw_theta_m(w, i) {
            out.push('\u{3B8}');
            i += 5;
        } else if kw_beta_m(w, i) {
            out.push('\u{3B2}');
            i += 4;
        } else if kw_prod_m(w, i) {
            out.push('\u{220F}');
            i += 4;
        } else if kw_sqrt_m(w, i) {
            out.push('\u{221A}');
            i += 4;
        } else if kw_sube_m(w, i) {
            out.push('\u{2286}');
            i += 4;
        } else if kw_and_m(w, i) {
            out.push('\u{2227}');
            i += 3;
        } else if kw_cap_m(w, i) {
            out.push('\u{2229}');
            i += 3;
        } else if kw_cup_m(w, i) {
            out.push('\u{222A}');
            i += 3;
        } else if kw_iff_m(w, i) {
            out.push('\u{21D4}');
            i += 3;
        } else if kw_int_m(w, i) {
            out.push('\u{222B}');
            i += 3;
        } else if kw_not_m(w, i) {
            out.push('\u{AC}');
            i += 3;
        } else if kw_phi_m(w, i) {
            out.push('\u{3C6}');
            i += 3;
        } else if kw_sub_m(w, i) {
            out.push('\u{2282}');
            i += 3;
        } else if kw_sum_m(w, i) {
            out.push('\u{2211}');
            i += 3;
        } else if kw_ge_m(w, i) {
            out.push('\u{2265}');
            i += 2;
        } else if kw_in_m(w, i) {
            out.push('\u{2208}');
            i += 2;
        } else if kw_le_m(w, i) {
            out.push('\u{2264}');
            i += 2;
        } else if kw_mu_m(w, i) {
            out.push('\u{3BC}');
            i += 2;
        } else if kw_ne_m(w, i) {
            out.push('\u{2260}');
            i += 2;
        } else if kw_oo_m(w, i) {
            out.push('\u{221E}');
            i += 2;
        } else if kw_or_m(w, i) {
            out.push('\u{2228}');
            i += 2;
        } else if kw_pi_m(w, i) {
            out.push('\u{3C0}');
            i += 2;
        } else if kw_pm_m(w, i) {
            out.push('\u{B1}');
            i += 2;
        } else if kw_to_m(w, i) {
            out.push('\u{2192}');
            i += 2;
        } else if kw_xx_m(w, i) {
            out.push('\u{D7}');
            i += 2;
        } else {
            out.push(style_map(st, w[i]));
            i += 1;
        }
        proof {
            assert(out@ + spec_render_word_from(w@, i as int, st) =~= prev
                + spec_render_word_from(w@, ii, st));
        }
    }
    assert(out@ =~= spec_render_word(w@, st));
    out
}

/// Whether any symbol keyword starts at position `i` of a run.
pub open spec fn any_kw_at(w: Seq<char>, i: int) -> bool {
    kw_emptyset_at(w, i)
        || kw_implies_at(w, i)
        || kw_exists_at(w, i)
        || kw_forall_at(w, i)
        || kw_lambda_at(w, i)
        || kw_alpha_at(w, i)
        || kw_delta_at(w, i)
        || kw_gamma_at(w, i)
        || kw_notin_at(w, i)
        || kw_omega_at(w, i)
        || kw_sigma_at(w, i)
        || kw_theta_at(w, i)
        || kw_beta_at(w, i)
        || kw_prod_at(w, i)
        || kw_sqrt_at(w, i)
        || kw_sube_at(w, i)
        || kw_and_at(w, i)
        || kw_cap_at(w, i)
        || kw_cup_at(w, i)
        || kw_iff_at(w, i)
        || kw_int_at(w, i)
        || kw_not_at(w, i)
        || kw_phi_at(w, i)
        || kw_sub_at(w, i)
        || kw_sum_at(w, i)
        || kw_ge_at(w, i)
        || kw_in_at(w, i)
        || kw_le_at(w, i)
        || kw_mu_at(w, i)
        || kw_ne_at(w, i)
        || kw_oo_at(w, i)
        || kw_or_at(w, i)
        || kw_pi_at(w, i)
        || kw_pm_at(w, i)
        || kw_to_at(w, i)
        || kw_xx_at(w, i)
}

/// Rendering under the plain style is the identity on a run in which no
/// symbol keyword starts anywhere at or after position `i`.
pub proof fn lemma_render_word_from_id(w: Seq<char>, i: int)
    requires
        0 <= i <= w.len(),
        forall|p: int| i <= p < w.len() ==> !any_kw_at(w, p),
    ensures
        spec_render_word_from(w, i, Style::Plain) == w.skip(i),
    decreases w.len() - i,
{
    if i >= w.len() {
        assert(spec_render_word_from(w, i, Style::Plain) =~= w.skip(i));
    } else {
        assert(!any_kw_at(w, i));
        lemma_render_word_from_id(w, i + 1);
        assert(spec_render_word_from(w, i, Style::Plain) =~= w.skip(i));
    }
}

/// Rendering under the plain style is the identity on a run with no
/// symbol keyword anywhere in it.
pub proof fn lemma_render_word_plain_id(w: Seq<char>)
    requires
        forall|p: int| 0 <= p < w.len() ==> !any_kw_at(w, p),
    ensures
        spec_render_word(w, Style::Plain) == w,
{
    lemma_render_word_from_id(w, 0);
    assert(w.skip(0) =~= w);
}

/// No symbol keyword starts at a digit: every keyword begins with a
/// letter.
pub proof fn lemma_no_kw_at_digit(w: Seq<char>, p: int)
    requires
        0 <= p < w.len(),
        '0' <= w[p] && w[p] <= '9',
    ensures
        !any_kw_at(w, p),
{
}

/// A keyword found inside a contiguous part of a run stands at the
/// corresponding position of the whole run.
pub proof fn lemma_kw_in_subrange(s: Seq<char>, a: int, b: int, p: int)
    requires
        0 <= a <= b <= s.len(),
        0 <= p < b - a,
        any_kw_at(s.subrange(a, b), p),
    ensures
        any_kw_at(s, a + p),
{
}


/// Where no symbol keyword starts at or after position `i`, rendering
/// emits exactly one character per input character, under every style.
pub proof fn lemma_render_word_from_one_to_one(w: Seq<char>, i: int, st: Style)
    requires
        0 <= i <= w.len(),
        forall|p: int| i <= p < w.len() ==> !any_kw_at(w, p),
    ensures
        spec_render_word_from(w, i, st).len() == w.len() - i,
    decreases w.len() - i,
{
    if i < w.len() {
        assert(!any_kw_at(w, i));
        lemma_render_word_from_one_to_one(w, i + 1, st);
    }
}

/// A letter run in which no symbol keyword starts anywhere renders to
/// exactly one character per input character, under every style: no
/// character is dropped silently.
pub proof fn lemma_render_word_one_to_one(w: Seq<char>, st: Style)
    requires
        forall|p: int| 0 <= p < w.len() ==> !any_kw_at(w, p),
    ensures
        spec_render_word(w, st).len() == w.len(),
{
    lemma_render_word_from_one_to_one(w, 0, st);
}

} // verus!
