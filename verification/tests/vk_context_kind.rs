use vkjam::vk_context::VkContextKind;

#[test]
fn window_context_argument_is_zero() {
    assert_eq!(VkContextKind::Win.to_device_arg(), 0);
}
