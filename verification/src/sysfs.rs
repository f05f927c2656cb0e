//! Where each control lives in the pseudo-file tree.
//!
//! Every function gives a path as text; for each there is a specification
//! function of the same name with `_path` added.

use crate::text::{decimal, decimal_string};
use vstd::prelude::*;
use vstd::string::*;

verus! {

/// The path of the entry `name` in the directory `base`.
pub open spec fn child_path(base: Seq<char>, name: Seq<char>) -> Seq<char> {
    base + "/"@ + name
}

fn child(base: String, name: &str) -> (r: String)
    ensures
        r@ == child_path(base@, name@),
{
    let mut p = base;
    p.append("/");
    p.append(name);
    p
}

/// The directory of one processor.
pub open spec fn cpu_path(cpu_id: u64) -> Seq<char> {
    "/sys/devices/system/cpu/cpu"@ + decimal(cpu_id as nat)
}

pub fn cpu(cpu_id: u64) -> (r: String)
    ensures
        r@ == cpu_path(cpu_id),
{
    let mut p = String::from_str("/sys/devices/system/cpu/cpu");
    p.append(decimal_string(cpu_id).as_str());
    p
}

/// The list of the processors that are present.
pub open spec fn cpu_present_path() -> Seq<char> {
    "/sys/devices/system/cpu/present"@
}

pub fn cpu_present() -> (r: String)
    ensures
        r@ == cpu_present_path(),
{
    String::from_str("/sys/devices/system/cpu/present")
}

/// The directory of the frequency scaling driver.
pub open spec fn cpu_cpufreq_path() -> Seq<char> {
    "/sys/devices/system/cpu/cpufreq"@
}

pub fn cpu_cpufreq() -> (r: String)
    ensures
        r@ == cpu_cpufreq_path(),
{
    String::from_str("/sys/devices/system/cpu/cpufreq")
}

/// A processor's frequency scaling directory.
pub open spec fn cpufreq_path(cpu_id: u64) -> Seq<char> {
    child_path(cpu_path(cpu_id), "cpufreq"@)
}

pub fn cpufreq(cpu_id: u64) -> (r: String)
    ensures
        r@ == cpufreq_path(cpu_id),
{
    child(cpu(cpu_id), "cpufreq")
}

/// The current frequency, in kilohertz.
pub open spec fn cpufreq_cur_khz_path(cpu_id: u64) -> Seq<char> {
    child_path(cpufreq_path(cpu_id), "scaling_cur_freq"@)
}

pub fn cpufreq_cur_khz(cpu_id: u64) -> (r: String)
    ensures
        r@ == cpufreq_cur_khz_path(cpu_id),
{
    child(cpufreq(cpu_id), "scaling_cur_freq")
}

/// The upper scaling limit, in kilohertz.
pub open spec fn cpufreq_max_khz_path(cpu_id: u64) -> Seq<char> {
    child_path(cpufreq_path(cpu_id), "scaling_max_freq"@)
}

pub fn cpufreq_max_khz(cpu_id: u64) -> (r: String)
    ensures
        r@ == cpufreq_max_khz_path(cpu_id),
{
    child(cpufreq(cpu_id), "scaling_max_freq")
}

/// The scaling governor.
pub open spec fn cpufreq_governor_path(cpu_id: u64) -> Seq<char> {
    child_path(cpufreq_path(cpu_id), "scaling_governor"@)
}

pub fn cpufreq_governor(cpu_id: u64) -> (r: String)
    ensures
        r@ == cpufreq_governor_path(cpu_id),
{
    child(cpufreq(cpu_id), "scaling_governor")
}

/// The governors that can be chosen.
pub open spec fn cpufreq_governors_path(cpu_id: u64) -> Seq<char> {
    child_path(cpufreq_path(cpu_id), "scaling_available_governors"@)
}

pub fn cpufreq_governors(cpu_id: u64) -> (r: String)
    ensures
        r@ == cpufreq_governors_path(cpu_id),
{
    child(cpufreq(cpu_id), "scaling_available_governors")
}

/// The highest frequency that the hardware runs at, in kilohertz.
pub open spec fn cpufreq_max_khz_limit_path(cpu_id: u64) -> Seq<char> {
    child_path(cpufreq_path(cpu_id), "cpuinfo_max_freq"@)
}

pub fn cpufreq_max_khz_limit(cpu_id: u64) -> (r: String)
    ensures
        r@ == cpufreq_max_khz_limit_path(cpu_id),
{
    child(cpufreq(cpu_id), "cpuinfo_max_freq")
}

/// The lower scaling limit, in kilohertz.
pub open spec fn cpufreq_min_khz_path(cpu_id: u64) -> Seq<char> {
    child_path(cpufreq_path(cpu_id), "scaling_min_freq"@)
}

pub fn cpufreq_min_khz(cpu_id: u64) -> (r: String)
    ensures
        r@ == cpufreq_min_khz_path(cpu_id),
{
    child(cpufreq(cpu_id), "scaling_min_freq")
}

/// The lowest frequency that the hardware runs at, in kilohertz.
pub open spec fn cpufreq_min_khz_limit_path(cpu_id: u64) -> Seq<char> {
    child_path(cpufreq_path(cpu_id), "cpuinfo_min_freq"@)
}

pub fn cpufreq_min_khz_limit(cpu_id: u64) -> (r: String)
    ensures
        r@ == cpufreq_min_khz_limit_path(cpu_id),
{
    child(cpufreq(cpu_id), "cpuinfo_min_freq")
}

/// Whether the processor is online.
pub open spec fn cpu_online_path(cpu_id: u64) -> Seq<char> {
    child_path(cpu_path(cpu_id), "online"@)
}

pub fn cpu_online(cpu_id: u64) -> (r: String)
    ensures
        r@ == cpu_online_path(cpu_id),
{
    child(cpu(cpu_id), "online")
}

/// The directory of the Intel P-state driver.
pub open spec fn intel_pstate_path() -> Seq<char> {
    "/sys/devices/system/cpu/intel_pstate"@
}

pub fn intel_pstate() -> (r: String)
    ensures
        r@ == intel_pstate_path(),
{
    String::from_str("/sys/devices/system/cpu/intel_pstate")
}

/// The energy/performance bias hint.
pub open spec fn intel_pstate_epb_path(cpu_id: u64) -> Seq<char> {
    child_path(child_path(cpu_path(cpu_id), "power"@), "energy_perf_bias"@)
}

pub fn intel_pstate_epb(cpu_id: u64) -> (r: String)
    ensures
        r@ == intel_pstate_epb_path(cpu_id),
{
    child(child(cpu(cpu_id), "power"), "energy_perf_bias")
}

/// The energy/performance preference.
pub open spec fn intel_pstate_epp_path(cpu_id: u64) -> Seq<char> {
    child_path(cpufreq_path(cpu_id), "energy_performance_preference"@)
}

pub fn intel_pstate_epp(cpu_id: u64) -> (r: String)
    ensures
        r@ == intel_pstate_epp_path(cpu_id),
{
    child(cpufreq(cpu_id), "energy_performance_preference")
}

/// The preferences that can be chosen.
pub open spec fn intel_pstate_epps_path(cpu_id: u64) -> Seq<char> {
    child_path(cpufreq_path(cpu_id), "energy_performance_available_preferences"@)
}

pub fn intel_pstate_epps(cpu_id: u64) -> (r: String)
    ensures
        r@ == intel_pstate_epps_path(cpu_id),
{
    child(cpufreq(cpu_id), "energy_performance_available_preferences")
}

/// The mode that the P-state driver runs in.
pub open spec fn intel_pstate_status_path() -> Seq<char> {
    child_path(intel_pstate_path(), "status"@)
}

pub fn intel_pstate_status() -> (r: String)
    ensures
        r@ == intel_pstate_status_path(),
{
    child(intel_pstate(), "status")
}

/// The directory of the graphics devices.
pub open spec fn drm_path() -> Seq<char> {
    "/sys/class/drm"@
}

pub fn drm() -> (r: String)
    ensures
        r@ == drm_path(),
{
    String::from_str("/sys/class/drm")
}

/// The directory of one graphics card.
pub open spec fn drm_card_path(card_id: u64) -> Seq<char> {
    child_path(drm_path(), "card"@ + decimal(card_id as nat))
}

pub fn drm_card(card_id: u64) -> (r: String)
    ensures
        r@ == drm_card_path(card_id),
{
    let mut name = String::from_str("card");
    name.append(decimal_string(card_id).as_str());
    child(drm(), name.as_str())
}

/// The link to the card's driver.
pub open spec fn drm_card_driver_path(card_id: u64) -> Seq<char> {
    child_path(child_path(drm_card_path(card_id), "device"@), "driver"@)
}

pub fn drm_card_driver(card_id: u64) -> (r: String)
    ensures
        r@ == drm_card_driver_path(card_id),
{
    child(child(drm_card(card_id), "device"), "driver")
}

/// The directory of the Intel graphics module.
pub open spec fn i915_module_path() -> Seq<char> {
    "/sys/module/i915"@
}

pub fn i915_module() -> (r: String)
    ensures
        r@ == i915_module_path(),
{
    String::from_str("/sys/module/i915")
}

/// The highest frequency that the hardware runs at, in megahertz.
pub open spec fn i915_rp0_mhz_path(card_id: u64) -> Seq<char> {
    child_path(drm_card_path(card_id), "gt_RP0_freq_mhz"@)
}

pub fn i915_rp0_mhz(card_id: u64) -> (r: String)
    ensures
        r@ == i915_rp0_mhz_path(card_id),
{
    child(drm_card(card_id), "gt_RP0_freq_mhz")
}

/// The most efficient frequency, in megahertz.
pub open spec fn i915_rp1_mhz_path(card_id: u64) -> Seq<char> {
    child_path(drm_card_path(card_id), "gt_RP1_freq_mhz"@)
}

pub fn i915_rp1_mhz(card_id: u64) -> (r: String)
    ensures
        r@ == i915_rp1_mhz_path(card_id),
{
    child(drm_card(card_id), "gt_RP1_freq_mhz")
}

/// The lowest frequency that the hardware runs at, in megahertz.
pub open spec fn i915_rpn_mhz_path(card_id: u64) -> Seq<char> {
    child_path(drm_card_path(card_id), "gt_RPn_freq_mhz"@)
}

pub fn i915_rpn_mhz(card_id: u64) -> (r: String)
    ensures
        r@ == i915_rpn_mhz_path(card_id),
{
    child(drm_card(card_id), "gt_RPn_freq_mhz")
}

/// The frequency that the card runs at, in megahertz.
pub open spec fn i915_act_mhz_path(card_id: u64) -> Seq<char> {
    child_path(drm_card_path(card_id), "gt_act_freq_mhz"@)
}

pub fn i915_act_mhz(card_id: u64) -> (r: String)
    ensures
        r@ == i915_act_mhz_path(card_id),
{
    child(drm_card(card_id), "gt_act_freq_mhz")
}

/// The boost frequency, in megahertz.
pub open spec fn i915_boost_mhz_path(card_id: u64) -> Seq<char> {
    child_path(drm_card_path(card_id), "gt_boost_freq_mhz"@)
}

pub fn i915_boost_mhz(card_id: u64) -> (r: String)
    ensures
        r@ == i915_boost_mhz_path(card_id),
{
    child(drm_card(card_id), "gt_boost_freq_mhz")
}

/// The frequency that was asked for, in megahertz.
pub open spec fn i915_cur_mhz_path(card_id: u64) -> Seq<char> {
    child_path(drm_card_path(card_id), "gt_cur_freq_mhz"@)
}

pub fn i915_cur_mhz(card_id: u64) -> (r: String)
    ensures
        r@ == i915_cur_mhz_path(card_id),
{
    child(drm_card(card_id), "gt_cur_freq_mhz")
}

/// The upper limit, in megahertz.
pub open spec fn i915_max_mhz_path(card_id: u64) -> Seq<char> {
    child_path(drm_card_path(card_id), "gt_max_freq_mhz"@)
}

pub fn i915_max_mhz(card_id: u64) -> (r: String)
    ensures
        r@ == i915_max_mhz_path(card_id),
{
    child(drm_card(card_id), "gt_max_freq_mhz")
}

/// The lower limit, in megahertz.
pub open spec fn i915_min_mhz_path(card_id: u64) -> Seq<char> {
    child_path(drm_card_path(card_id), "gt_min_freq_mhz"@)
}

pub fn i915_min_mhz(card_id: u64) -> (r: String)
    ensures
        r@ == i915_min_mhz_path(card_id),
{
    child(drm_card(card_id), "gt_min_freq_mhz")
}

} // verus!
