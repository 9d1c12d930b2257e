use vesting::entry::{admin_release, call, pause, unpause, withdraw, AccountHash, Deployment};
use vesting::vesting::VestingTrait;

struct VestingConfig {
    cliff_timestamp: u64,
    cliff_amount: u64,
    drip_duration: u64,
    drip_amount: u64,
    total_amount: u64,
    admin_release_duration: u64,
}

impl Default for VestingConfig {
    fn default() -> VestingConfig {
        VestingConfig {
            cliff_timestamp: 10,
            cliff_amount: 2,
            drip_duration: 3,
            drip_amount: 5,
            total_amount: 1000,
            admin_release_duration: 123,
        }
    }
}

/// A deployed contract with three accounts around it; every call is expected to succeed.
struct Vesting {
    deployment: Deployment,
    admin_account: AccountHash,
    ali_account: AccountHash,
    bob_account: AccountHash,
    current_time: u64,
}

impl Vesting {
    fn deploy() -> Self {
        let admin_account: AccountHash = [1u8; 32];
        let ali_account: AccountHash = [2u8; 32];
        let bob_account: AccountHash = [3u8; 32];
        let config: VestingConfig = Default::default();
        let deployment = call(
            admin_account,
            ali_account,
            config.cliff_timestamp,
            config.cliff_amount,
            config.drip_duration,
            config.drip_amount,
            config.total_amount,
            config.admin_release_duration,
        );
        Self { deployment, admin_account, ali_account, bob_account, current_time: 0 }
    }

    fn get_total_amount(&self) -> u64 {
        self.deployment.vesting.total_amount()
    }

    fn get_released_amount(&self) -> u64 {
        self.deployment.vesting.released_amount()
    }

    fn get_pause_status(&self) -> bool {
        self.deployment.vesting.is_paused()
    }

    fn set_block_time(&mut self, block_time: u64) {
        self.current_time = block_time;
    }

    fn tick(&mut self) {
        assert!(self.deployment.vesting.current_timestamp <= self.current_time);
        self.deployment.set_block_time(self.current_time);
    }

    fn withdraw(&mut self, sender: AccountHash, amount: u64) {
        self.tick();
        let moved = withdraw(&mut self.deployment, &sender, amount).unwrap();
        assert_eq!(moved, amount);
    }

    fn pause(&mut self, sender: AccountHash) {
        self.tick();
        pause(&mut self.deployment, &sender).unwrap();
    }

    fn unpause(&mut self, sender: AccountHash) {
        self.tick();
        unpause(&mut self.deployment, &sender).unwrap();
    }

    fn admin_release(&mut self, sender: AccountHash) {
        self.tick();
        admin_release(&mut self.deployment, &sender).unwrap();
    }
}

#[test]
fn lib_test_vesting_deploy() {
    let vesting = Vesting::deploy();
    let config: VestingConfig = Default::default();
    let amount = vesting.get_total_amount();
    assert_eq!(amount, config.total_amount);
}

#[test]
fn lib_test_pause_by_admin() {
    let mut vesting = Vesting::deploy();
    let admin = vesting.admin_account;
    vesting.pause(admin);
    let status = vesting.get_pause_status();
    assert!(status, "The contract is not paused");
}

#[test]
fn lib_test_unpause_by_admin() {
    let mut vesting = Vesting::deploy();
    let admin = vesting.admin_account;
    vesting.pause(admin);
    vesting.unpause(admin);
    let status = vesting.get_pause_status();
    assert!(!status, "The contract is still paused");
}

#[test]
#[should_panic]
fn lib_test_pause_by_not_admin() {
    let mut vesting = Vesting::deploy();
    let ali = vesting.ali_account;
    vesting.pause(ali);
}

#[test]
#[should_panic]
fn lib_test_unpause_by_not_admin() {
    let mut vesting = Vesting::deploy();
    let admin = vesting.admin_account;
    let ali = vesting.ali_account;
    vesting.pause(admin);
    vesting.unpause(ali);
}

#[test]
fn tests_test_vesting_deploy() {
    let vesting = Vesting::deploy();
    let config: VestingConfig = Default::default();
    let amount = vesting.get_total_amount();
    assert_eq!(amount, config.total_amount);
}

#[test]
fn tests_test_withdraw() {
    let mut vesting = Vesting::deploy();
    let config: VestingConfig = Default::default();
    vesting.set_block_time(config.cliff_timestamp);
    vesting.withdraw(vesting.ali_account, 1);
    let amount = vesting.get_released_amount();
    assert_eq!(amount, 1);
}

#[test]
#[should_panic]
fn test_withdraw_incorrect_recepient() {
    let mut vesting = Vesting::deploy();
    let config: VestingConfig = Default::default();
    vesting.set_block_time(config.cliff_timestamp);
    vesting.withdraw(vesting.bob_account, 1);
}

#[test]
fn tests_test_pause_by_admin() {
    let mut vesting = Vesting::deploy();
    vesting.pause(vesting.admin_account);
    let status = vesting.get_pause_status();
    assert!(status, "The contract is not paused");
}

#[test]
fn tests_test_unpause_by_admin() {
    let mut vesting = Vesting::deploy();
    vesting.pause(vesting.admin_account);
    vesting.unpause(vesting.admin_account);
    let status = vesting.get_pause_status();
    assert!(!status, "The contract is still paused");
}

#[test]
#[should_panic]
fn tests_test_pause_by_not_admin() {
    let mut vesting = Vesting::deploy();
    vesting.pause(vesting.ali_account);
}

#[test]
#[should_panic]
fn tests_test_unpause_by_not_admin() {
    let mut vesting = Vesting::deploy();
    vesting.pause(vesting.admin_account);
    vesting.unpause(vesting.ali_account);
}

#[test]
fn tests_test_admin_release() {
    let config: VestingConfig = Default::default();
    let mut vesting = Vesting::deploy();
    vesting.pause(vesting.admin_account);
    vesting.set_block_time(config.admin_release_duration);
    vesting.admin_release(vesting.admin_account);
    let amount = vesting.get_released_amount();
    assert_eq!(amount, config.total_amount);
}

#[test]
#[should_panic]
fn test_admin_release_by_not_admin() {
    let mut vesting = Vesting::deploy();
    let config: VestingConfig = Default::default();
    vesting.pause(vesting.admin_account);
    vesting.set_block_time(config.admin_release_duration);
    vesting.admin_release(vesting.ali_account);
}
